//! Supervision of the bundled backend service: where it listens, how its
//! health answer is judged, how it is installed, configured, started, waited
//! for and stopped. Every outside effect (sockets, files, processes, sleeping)
//! is performed by the caller; the functions here decide.

use vstd::prelude::*;
use crate::platform::Platform;
use crate::text::{
    contains, contains_seq, decimal, lemma_decimal_ends_in_digit, lemma_trimmed_unchanged,
    push_decimal, starts_with, starts_with_seq, trim, trimmed,
};

verus! {

/// The port the backend listens on.
pub open spec fn port_text() -> Seq<char> {
    "18765"@
}

/// The loopback address of the backend, `127.0.0.1:<port>`.
pub open spec fn address_text() -> Seq<char> {
    "127.0.0.1:"@ + port_text()
}

/// The port the backend listens on.
pub fn backend_port() -> (r: String)
    ensures
        r@ == port_text(),
{
    String::from_str("18765")
}

/// The socket address of the backend, `127.0.0.1:18765`.
pub fn backend_address() -> (r: String)
    ensures
        r@ == address_text(),
{
    let mut a = String::from_str("127.0.0.1:");
    a.append("18765");
    a
}

/// The HTTP request sent to the backend's health endpoint.
pub open spec fn health_request_text() -> Seq<char> {
    "GET /api/health HTTP/1.1\r\nHost: 127.0.0.1:"@ + port_text()
        + "\r\nConnection: close\r\n\r\n"@
}

/// The HTTP request sent to the backend's health endpoint.
pub fn health_request() -> (r: String)
    ensures
        r@ == health_request_text(),
{
    let mut q = String::from_str("GET /api/health HTTP/1.1\r\nHost: 127.0.0.1:");
    q.append("18765");
    q.append("\r\nConnection: close\r\n\r\n");
    q
}

/// A health answer is good when it is an HTTP 200 whose body reports status
/// `ok` and API version 2.
pub open spec fn healthy_response(response: Seq<char>) -> bool {
    &&& starts_with_seq(response, "HTTP/1.1 200"@)
    &&& contains_seq(response, "\"status\":\"ok\""@)
    &&& contains_seq(response, "\"api_version\":2"@)
}

/// Only an HTTP 200 answer that reports status `ok` and API version 2 is a
/// healthy backend: a response with another status line, or missing either
/// marker, never is.
pub proof fn law_healthy_needs_status_and_markers(response: Seq<char>)
    ensures
        healthy_response(response) ==> starts_with_seq(response, "HTTP/1.1 200"@),
        healthy_response(response) ==> contains_seq(response, "\"status\":\"ok\""@),
        healthy_response(response) ==> contains_seq(response, "\"api_version\":2"@),
        starts_with_seq(response, "HTTP/1.1 200"@) && contains_seq(response, "\"status\":\"ok\""@)
            && contains_seq(response, "\"api_version\":2"@) ==> healthy_response(response),
{
}

/// Judges the raw text the health endpoint answered.
pub fn health_response_ok(response: &str) -> (r: bool)
    ensures
        r == healthy_response(response@),
{
    starts_with(response, "HTTP/1.1 200") && contains(response, "\"status\":\"ok\"") && contains(
        response,
        "\"api_version\":2",
    )
}

/// The error when the port is taken by something that is not the backend.
pub open spec fn port_in_use_text() -> Seq<char> {
    "127.0.0.1:"@ + port_text() + " 已被占用，但不是 Focus Task 后端服务"@
}

/// The error when the port is taken by something that is not the backend.
pub fn port_in_use_message() -> (r: String)
    ensures
        r@ == port_in_use_text(),
{
    let mut m = String::from_str("127.0.0.1:");
    m.append("18765");
    m.append(" 已被占用，但不是 Focus Task 后端服务");
    m
}

/// The error when the started backend never answered its health check.
pub open spec fn startup_timeout_text() -> Seq<char> {
    "Focus Task 后端启动超时"@
}

/// The error when the started backend never answered its health check.
pub fn startup_timeout_message() -> (r: String)
    ensures
        r@ == startup_timeout_text(),
{
    String::from_str("Focus Task 后端启动超时")
}

/// The line logged when starting the backend failed.
pub fn startup_failure_message(err: &str) -> (r: String)
    ensures
        r@ == "Failed to start Focus Task backend: "@ + err@,
{
    let mut m = String::from_str("Failed to start Focus Task backend: ");
    m.append(err);
    m
}

/// The line logged when no backend binary is bundled at `path`.
pub fn missing_binary_message(path: &str) -> (r: String)
    ensures
        r@ == "Focus Task backend binary not found: "@ + path@,
{
    let mut m = String::from_str("Focus Task backend binary not found: ");
    m.append(path);
    m
}

/// The database URL handed to the backend for a database file.
pub fn database_url(db_path: &str) -> (r: String)
    ensures
        r@ == "sqlite:///"@ + db_path@,
{
    let mut u = String::from_str("sqlite:///");
    u.append(db_path);
    u
}

/// The environment the backend process is started with.
pub open spec fn backend_environment_view(db_path: Seq<char>, secret: Seq<char>) -> Seq<
    (Seq<char>, Seq<char>),
> {
    seq![
        ("FOCUS_TASK_BACKEND_PORT"@, port_text()),
        ("FOCUS_TASK_DATABASE_URL"@, "sqlite:///"@ + db_path),
        ("FOCUS_TASK_SECRET_KEY"@, secret),
    ]
}

/// The environment variables (name, value) the backend is started with.
pub fn backend_environment(db_path: &str, secret: &str) -> (r: Vec<(String, String)>)
    ensures
        r@.map_values(|kv: (String, String)| (kv.0@, kv.1@)) == backend_environment_view(
            db_path@,
            secret@,
        ),
{
    let mut env: Vec<(String, String)> = Vec::new();
    env.push((String::from_str("FOCUS_TASK_BACKEND_PORT"), backend_port()));
    env.push((String::from_str("FOCUS_TASK_DATABASE_URL"), database_url(db_path)));
    env.push((String::from_str("FOCUS_TASK_SECRET_KEY"), String::from_str(secret)));
    assert(env@.map_values(|kv: (String, String)| (kv.0@, kv.1@)) =~= backend_environment_view(
        db_path@,
        secret@,
    ));
    env
}


// ───────────────────────── files and names ─────────────────────────

/// Directory, under the resources and under `bin/`, that holds the backend.
pub const BACKEND_RESOURCE_DIR: &'static str = "backend";

/// The backend's database file name.
pub const BACKEND_DB_NAME: &'static str = "todo.db";

/// The file that keeps the backend's secret key.
pub const BACKEND_SECRET_NAME: &'static str = "secret.key";

/// The directory under the application data directory that holds installed
/// programs.
pub const BIN_DIR: &'static str = "bin";

/// The directory under the resources that holds the seed database.
pub const SEED_DIR: &'static str = "seed";

/// The log directory under the application data directory, used when the
/// platform names no log directory.
pub const FALLBACK_LOG_DIR: &'static str = "logs";

/// Where the backend's log files go.
#[derive(Clone, Copy, Debug, PartialEq, Eq, Structural)]
pub enum LogDirChoice {
    /// `logs` under the application data directory.
    AppDataLogs,
    /// The platform's log directory for the application, or `logs` under the
    /// application data directory when the platform names none.
    PlatformLogDir,
}

/// The log directory on a platform: on Windows the logs are kept in `logs`
/// under the application data directory, where the Windows guide tells
/// users to look; elsewhere in the platform's log directory.
pub fn backend_log_dir(p: Platform) -> (r: LogDirChoice)
    ensures
        r == (if p == Platform::Windows {
            LogDirChoice::AppDataLogs
        } else {
            LogDirChoice::PlatformLogDir
        }),
{
    match p {
        Platform::Windows => LogDirChoice::AppDataLogs,
        _ => LogDirChoice::PlatformLogDir,
    }
}

/// The file that receives the backend's standard output.
pub const BACKEND_STDOUT_LOG: &'static str = "backend.out.log";

/// The file that receives the backend's standard error.
pub const BACKEND_STDERR_LOG: &'static str = "backend.err.log";

/// The backend executable's file name on a platform.
pub open spec fn binary_name_text(p: Platform) -> Seq<char> {
    if p == Platform::Windows {
        "focus-task-backend.exe"@
    } else {
        "focus-task-backend"@
    }
}

/// The backend executable's file name on a platform.
pub fn backend_binary_name(p: Platform) -> (r: String)
    ensures
        r@ == binary_name_text(p),
{
    match p {
        Platform::Windows => String::from_str("focus-task-backend.exe"),
        _ => String::from_str("focus-task-backend"),
    }
}

/// The directory a new backend is copied into before it replaces the
/// installed one: the resource directory's name followed by `.new`.
pub fn staging_dir_name() -> (r: String)
    ensures
        r@ == BACKEND_RESOURCE_DIR@ + ".new"@,
{
    let mut d = String::from_str(BACKEND_RESOURCE_DIR);
    d.append(".new");
    d
}

/// Whether the seed database is copied: only when there is no database yet
/// and a seed exists.
pub fn should_copy_seed_database(db_exists: bool, seed_exists: bool) -> (r: bool)
    ensures
        r == (!db_exists && seed_exists),
{
    !db_exists && seed_exists
}

/// How the backend process is started: the program, the directory it runs
/// in, its environment, and the log files (in the log directory) its
/// standard output and standard error go to, truncated.
pub struct BackendLaunch<P> {
    pub program: P,
    pub working_dir: P,
    pub env: Vec<(String, String)>,
    pub stdout_log: String,
    pub stderr_log: String,
}

/// Plans starting the installed backend `program`: it runs in the
/// application data directory with the port, database URL and secret in its
/// environment, and writes to `backend.out.log` and `backend.err.log`.
pub fn backend_launch<P>(program: P, app_data_dir: P, db_path: &str, secret: &str) -> (r:
    BackendLaunch<P>)
    ensures
        r.program == program,
        r.working_dir == app_data_dir,
        r.env@.map_values(|kv: (String, String)| (kv.0@, kv.1@)) == backend_environment_view(
            db_path@,
            secret@,
        ),
        r.stdout_log@ == BACKEND_STDOUT_LOG@,
        r.stderr_log@ == BACKEND_STDERR_LOG@,
{
    BackendLaunch {
        program,
        working_dir: app_data_dir,
        env: backend_environment(db_path, secret),
        stdout_log: String::from_str(BACKEND_STDOUT_LOG),
        stderr_log: String::from_str(BACKEND_STDERR_LOG),
    }
}

// ───────────────────────── secret key ─────────────────────────

/// The secret kept in a secret file: its trimmed contents, unless empty.
pub open spec fn kept_secret(contents: Seq<char>) -> Option<Seq<char>> {
    if trimmed(contents).len() > 0 {
        Some(trimmed(contents))
    } else {
        None
    }
}

/// The secret stored in a secret file's contents, if any.
pub fn existing_secret(contents: &str) -> (r: Option<String>)
    ensures
        r is Some <==> kept_secret(contents@) is Some,
        r matches Some(s) ==> s@ == kept_secret(contents@)->Some_0,
{
    let t = trim(contents);
    if t.as_str().is_empty() {
        None
    } else {
        Some(t)
    }
}

/// A fresh secret: `focus-task-desktop-<nanoseconds>-<process id>`.
pub open spec fn fresh_secret(now_nanos: nat, pid: nat) -> Seq<char> {
    "focus-task-desktop-"@ + decimal(now_nanos) + "-"@ + decimal(pid)
}

/// Builds a fresh secret from the time since the epoch in nanoseconds and
/// the process id.
pub fn generate_secret(now_nanos: u128, pid: u32) -> (r: String)
    ensures
        r@ == fresh_secret(now_nanos as nat, pid as nat),
{
    let mut s = String::from_str("focus-task-desktop-");
    push_decimal(&mut s, now_nanos);
    s.append("-");
    push_decimal(&mut s, pid as u128);
    s
}

/// A generated secret is kept as it is when it is read back from the
/// secret file: the next start reuses it.
pub proof fn law_generated_secret_is_kept(now_nanos: nat, pid: nat)
    ensures
        kept_secret(fresh_secret(now_nanos, pid)) == Some(fresh_secret(now_nanos, pid)),
{
    reveal_strlit("focus-task-desktop-");
    let s = fresh_secret(now_nanos, pid);
    lemma_decimal_ends_in_digit(pid);
    assert(s[0] == 'f');
    assert(s.last() == decimal(pid).last());
    lemma_trimmed_unchanged(s);
}

/// Which secret the backend is started with.
pub enum SecretChoice {
    /// The secret already on disk.
    Reuse(String),
    /// A new secret, which must be written to the secret file.
    Generate(String),
}

/// Chooses the backend's secret from what reading the secret file gave
/// (`None` when it could not be read): the kept secret if there is one,
/// otherwise a fresh one that is to be written.
pub fn choose_secret(read: Option<String>, now_nanos: u128, pid: u32) -> (r: SecretChoice)
    ensures
        match read {
            Some(c) if kept_secret(c@) is Some => r matches SecretChoice::Reuse(s) && s@
                == kept_secret(c@)->Some_0,
            _ => r matches SecretChoice::Generate(s) && s@ == fresh_secret(
                now_nanos as nat,
                pid as nat,
            ),
        },
{
    if let Some(contents) = read {
        if let Some(s) = existing_secret(contents.as_str()) {
            return SecretChoice::Reuse(s);
        }
    }
    SecretChoice::Generate(generate_secret(now_nanos, pid))
}

// ───────────────────────── installing the binary ─────────────────────────

/// What is known of a file: its length, and when it was last modified as
/// signed nanoseconds since the Unix epoch (`None` when the platform could
/// not tell).
pub struct FileFacts {
    pub len: u64,
    pub modified: Option<i128>,
}

/// A missing modification time counts as the epoch.
pub open spec fn modified_or_epoch(f: FileFacts) -> int {
    match f.modified {
        Some(t) => t as int,
        None => 0,
    }
}

/// The installed copy is current when it has the bundled copy's length and
/// was modified no earlier than it.
pub open spec fn is_current(bundled: FileFacts, installed: FileFacts) -> bool {
    bundled.len == installed.len && modified_or_epoch(installed) >= modified_or_epoch(bundled)
}

/// Whether the installed backend can be used as it is.
pub fn installed_is_current(bundled: &FileFacts, installed: &FileFacts) -> (r: bool)
    ensures
        r == is_current(*bundled, *installed),
{
    let b: i128 = match bundled.modified {
        Some(t) => t,
        None => 0,
    };
    let i: i128 = match installed.modified {
        Some(t) => t,
        None => 0,
    };
    bundled.len == installed.len && i >= b
}

/// How the backend binary is made available.
#[derive(Clone, Copy, Debug, PartialEq, Eq, Structural)]
pub enum InstallDecision {
    /// Nothing is bundled: there is no backend to run.
    NotBundled,
    /// The installed copy is current and is used as it is.
    UseInstalled,
    /// The bundled copy replaces the installed one.
    Reinstall,
}

/// The install decision from whether a bundle exists and, when an installed
/// copy exists, the facts of the bundled and installed executables.
pub open spec fn install_decision_spec(
    bundled_exists: bool,
    facts: Option<(FileFacts, FileFacts)>,
) -> InstallDecision {
    if !bundled_exists {
        InstallDecision::NotBundled
    } else {
        match facts {
            Some((b, i)) if is_current(b, i) => InstallDecision::UseInstalled,
            _ => InstallDecision::Reinstall,
        }
    }
}

/// Decides whether the backend is missing, already installed, or to be
/// reinstalled.
pub fn install_decision(bundled_exists: bool, facts: &Option<(FileFacts, FileFacts)>) -> (r:
    InstallDecision)
    ensures
        r == install_decision_spec(bundled_exists, *facts),
{
    if !bundled_exists {
        return InstallDecision::NotBundled;
    }
    match facts {
        Some((b, i)) => if installed_is_current(b, i) {
            InstallDecision::UseInstalled
        } else {
            InstallDecision::Reinstall
        },
        None => InstallDecision::Reinstall,
    }
}

/// One step of replacing the installed backend with the bundled one.
#[derive(Clone, Copy, Debug, PartialEq, Eq, Structural)]
pub enum InstallAction {
    /// Remove a staging directory left over from an earlier attempt.
    RemoveStaging,
    /// Copy the bundled backend directory into the staging directory.
    CopyBundleToStaging,
    /// Give the staged executable this Unix mode.
    SetExecutableMode(u32),
    /// Remove the currently installed backend directory.
    RemoveInstalled,
    /// Rename the staging directory to the installed directory.
    MoveStagingIntoPlace,
}

/// The steps that replace the installed backend, in order.
pub open spec fn reinstall_steps(staging_exists: bool, installed_exists: bool, unix: bool) -> Seq<
    InstallAction,
> {
    (if staging_exists {
        seq![InstallAction::RemoveStaging]
    } else {
        Seq::empty()
    }) + seq![InstallAction::CopyBundleToStaging] + (if unix {
        seq![InstallAction::SetExecutableMode(0o755)]
    } else {
        Seq::empty()
    }) + (if installed_exists {
        seq![InstallAction::RemoveInstalled]
    } else {
        Seq::empty()
    }) + seq![InstallAction::MoveStagingIntoPlace]
}

/// Plans replacing the installed backend with the bundled one: a stale
/// staging directory is removed first, the bundle is copied into staging and
/// made executable on Unix, and only then is the installed directory removed
/// and staging renamed into its place.
pub fn reinstall_plan(staging_exists: bool, installed_exists: bool, unix: bool) -> (r: Vec<
    InstallAction,
>)
    ensures
        r@ == reinstall_steps(staging_exists, installed_exists, unix),
{
    let mut v: Vec<InstallAction> = Vec::new();
    if staging_exists {
        v.push(InstallAction::RemoveStaging);
    }
    v.push(InstallAction::CopyBundleToStaging);
    if unix {
        v.push(InstallAction::SetExecutableMode(0o755));
    }
    if installed_exists {
        v.push(InstallAction::RemoveInstalled);
    }
    v.push(InstallAction::MoveStagingIntoPlace);
    assert(v@ =~= reinstall_steps(staging_exists, installed_exists, unix));
    v
}


/// Replacing the backend never removes the installed copy before the new
/// one is staged, and always ends by moving the staged copy into place.
pub proof fn law_reinstall_stages_before_removing(
    staging_exists: bool,
    installed_exists: bool,
    unix: bool,
    i: int,
    j: int,
)
    requires
        0 <= i < reinstall_steps(staging_exists, installed_exists, unix).len(),
        0 <= j < reinstall_steps(staging_exists, installed_exists, unix).len(),
        reinstall_steps(staging_exists, installed_exists, unix)[i] == InstallAction::RemoveInstalled,
        reinstall_steps(staging_exists, installed_exists, unix)[j]
            == InstallAction::CopyBundleToStaging,
    ensures
        j < i,
        reinstall_steps(staging_exists, installed_exists, unix).last()
            == InstallAction::MoveStagingIntoPlace,
{
    let a: Seq<InstallAction> = if staging_exists {
        seq![InstallAction::RemoveStaging]
    } else {
        Seq::empty()
    };
    let c: Seq<InstallAction> = if unix {
        seq![InstallAction::SetExecutableMode(0o755)]
    } else {
        Seq::empty()
    };
    let d: Seq<InstallAction> = if installed_exists {
        seq![InstallAction::RemoveInstalled]
    } else {
        Seq::empty()
    };
    let steps = reinstall_steps(staging_exists, installed_exists, unix);
    assert(steps =~= a + seq![InstallAction::CopyBundleToStaging] + c + d + seq![
        InstallAction::MoveStagingIntoPlace,
    ]);
    assert(j == a.len());
    assert(i == a.len() + 1 + c.len());
}

/// A copy that has the bundle's length and time is used as it is: the
/// start after a reinstall does not reinstall again.
pub proof fn law_installed_copy_of_bundle_is_used(f: FileFacts)
    ensures
        install_decision_spec(true, Some((f, f))) == InstallDecision::UseInstalled,
{
}

/// The installed copy is used only when a bundle exists and the installed
/// executable has exactly the bundled one's length and was modified no
/// earlier than it; a copy of another length is always replaced, and with no
/// bundle there is nothing to install.
pub proof fn law_use_installed_only_when_current(
    bundled_exists: bool,
    facts: Option<(FileFacts, FileFacts)>,
)
    ensures
        install_decision_spec(bundled_exists, facts) == InstallDecision::NotBundled
            <==> !bundled_exists,
        install_decision_spec(bundled_exists, facts) == InstallDecision::UseInstalled <==> (
        bundled_exists && (facts matches Some((b, i)) && b.len == i.len && modified_or_epoch(i)
            >= modified_or_epoch(b))),
        bundled_exists && (facts matches Some((b, i)) && b.len != i.len) ==> install_decision_spec(
            bundled_exists,
            facts,
        ) == InstallDecision::Reinstall,
        bundled_exists && facts is None ==> install_decision_spec(bundled_exists, facts)
            == InstallDecision::Reinstall,
{
}

/// A copy made from the bundle — same length, modified no earlier than the
/// bundle — is used as it is on the next start, which therefore copies,
/// removes and renames nothing.
pub proof fn law_fresh_copy_is_reused(bundled: FileFacts, installed: FileFacts)
    requires
        installed.len == bundled.len,
        modified_or_epoch(installed) >= modified_or_epoch(bundled),
    ensures
        install_decision_spec(true, Some((bundled, installed))) == InstallDecision::UseInstalled,
{
}

// ───────────────────────── waiting for readiness ─────────────────────────

/// How many times the health endpoint is asked before giving up.
pub const HEALTH_CHECK_ATTEMPTS: u32 = 150;

/// Milliseconds slept after each unsuccessful health check.
pub const HEALTH_CHECK_INTERVAL_MS: u64 = 200;

/// What to do after a health check while waiting for the backend.
#[derive(Clone, Copy, Debug, PartialEq, Eq, Structural)]
pub enum WaitDecision {
    /// The backend answered: it is ready.
    Ready,
    /// Sleep for the interval, then check again.
    SleepThenCheck,
    /// Sleep for the interval, then give up: the backend is not ready.
    SleepThenGiveUp,
}

/// The decision after the check numbered `checks_done` (counting from 0)
/// answered `healthy`.
pub open spec fn wait_decision_spec(checks_done: nat, healthy: bool) -> WaitDecision {
    if healthy {
        WaitDecision::Ready
    } else if checks_done + 1 < HEALTH_CHECK_ATTEMPTS {
        WaitDecision::SleepThenCheck
    } else {
        WaitDecision::SleepThenGiveUp
    }
}

/// Decides what follows a health check while waiting for the backend.
pub fn wait_decision(checks_done: u32, healthy: bool) -> (r: WaitDecision)
    requires
        checks_done < HEALTH_CHECK_ATTEMPTS,
    ensures
        r == wait_decision_spec(checks_done as nat, healthy),
{
    if healthy {
        WaitDecision::Ready
    } else if checks_done + 1 < HEALTH_CHECK_ATTEMPTS {
        WaitDecision::SleepThenCheck
    } else {
        WaitDecision::SleepThenGiveUp
    }
}

/// Waiting from check number `done` on, when the checks answer `answers`:
/// whether the backend was found ready, and how many checks were made.
pub open spec fn wait_run(answers: Seq<bool>, done: nat) -> (bool, nat)
    decreases HEALTH_CHECK_ATTEMPTS - done,
{
    if done >= HEALTH_CHECK_ATTEMPTS || done >= answers.len() {
        (false, 0)
    } else {
        match wait_decision_spec(done, answers[done as int]) {
            WaitDecision::Ready => (true, 1),
            WaitDecision::SleepThenCheck => {
                let rest = wait_run(answers, done + 1);
                (rest.0, rest.1 + 1)
            },
            WaitDecision::SleepThenGiveUp => (false, 1),
        }
    }
}

proof fn lemma_wait_run_from(answers: Seq<bool>, done: nat)
    requires
        answers.len() >= HEALTH_CHECK_ATTEMPTS,
        done <= HEALTH_CHECK_ATTEMPTS,
    ensures
        wait_run(answers, done).0 <==> exists|i: int|
            done <= i < HEALTH_CHECK_ATTEMPTS && #[trigger] answers[i],
        wait_run(answers, done).1 <= HEALTH_CHECK_ATTEMPTS - done,
    decreases HEALTH_CHECK_ATTEMPTS - done,
{
    if done < HEALTH_CHECK_ATTEMPTS {
        if !answers[done as int] && done + 1 < HEALTH_CHECK_ATTEMPTS {
            lemma_wait_run_from(answers, done + 1);
            assert forall|i: int| done <= i < HEALTH_CHECK_ATTEMPTS && #[trigger] answers[i] implies
                done + 1 <= i by {}
        }
        if !answers[done as int] && done + 1 >= HEALTH_CHECK_ATTEMPTS {
            assert forall|i: int| done <= i < HEALTH_CHECK_ATTEMPTS implies !#[trigger] answers[i] by {
                assert(i == done);
            }
        }
    }
}

/// Waiting for the backend reports it ready exactly when one of the first
/// `HEALTH_CHECK_ATTEMPTS` health checks succeeds, and never checks more
/// often than that.
pub proof fn law_wait_ready_iff_a_check_succeeds(answers: Seq<bool>)
    requires
        answers.len() >= HEALTH_CHECK_ATTEMPTS,
    ensures
        wait_run(answers, 0).0 <==> exists|i: int|
            0 <= i < HEALTH_CHECK_ATTEMPTS && #[trigger] answers[i],
        wait_run(answers, 0).1 <= HEALTH_CHECK_ATTEMPTS,
{
    lemma_wait_run_from(answers, 0);
}

// ───────────────────────── stopping ─────────────────────────

/// Takes the running backend, if any, out of its slot so the caller can
/// kill it and wait for it; the slot is left empty.
pub fn stop_backend<C>(slot: &mut Option<C>) -> (taken: Option<C>)
    ensures
        taken == *old(slot),
        *final(slot) is None,
{
    slot.take()
}

} // verus!
