use focus_task::backend::{
    backend_launch, backend_log_dir, LogDirChoice, BACKEND_STDERR_LOG, BACKEND_STDOUT_LOG, BIN_DIR, FALLBACK_LOG_DIR, SEED_DIR,
    backend_address, backend_binary_name, backend_environment, backend_port, choose_secret,
    database_url, existing_secret, generate_secret, health_request, health_response_ok,
    install_decision, installed_is_current, missing_binary_message, port_in_use_message,
    reinstall_plan, should_copy_seed_database, staging_dir_name, startup_failure_message,
    startup_timeout_message, stop_backend, wait_decision, FileFacts, InstallAction,
    InstallDecision, SecretChoice, WaitDecision, BACKEND_DB_NAME, BACKEND_RESOURCE_DIR,
    BACKEND_SECRET_NAME, HEALTH_CHECK_ATTEMPTS, HEALTH_CHECK_INTERVAL_MS,
};
use focus_task::platform::Platform;

#[test]
fn address_and_port() {
    assert_eq!(backend_port(), "18765");
    assert_eq!(backend_address(), "127.0.0.1:18765");
}

#[test]
fn health_request_text() {
    assert_eq!(
        health_request(),
        "GET /api/health HTTP/1.1\r\nHost: 127.0.0.1:18765\r\nConnection: close\r\n\r\n"
    );
}

#[test]
fn healthy_response_is_accepted() {
    let ok = "HTTP/1.1 200 OK\r\ncontent-type: application/json\r\n\r\n{\"status\":\"ok\",\"api_version\":2}";
    assert!(health_response_ok(ok));
}

#[test]
fn unhealthy_responses_are_rejected() {
    assert!(!health_response_ok("HTTP/1.1 503 Service Unavailable\r\n\r\n{\"status\":\"ok\",\"api_version\":2}"));
    assert!(!health_response_ok("HTTP/1.1 200 OK\r\n\r\n{\"status\":\"degraded\",\"api_version\":2}"));
    assert!(!health_response_ok("HTTP/1.1 200 OK\r\n\r\n{\"status\":\"ok\",\"api_version\":1}"));
    assert!(!health_response_ok(""));
}

#[test]
fn messages() {
    assert_eq!(port_in_use_message(), "127.0.0.1:18765 已被占用，但不是 Focus Task 后端服务");
    assert_eq!(startup_timeout_message(), "Focus Task 后端启动超时");
    assert_eq!(startup_failure_message("boom"), "Failed to start Focus Task backend: boom");
    assert_eq!(
        missing_binary_message("/r/backend/focus-task-backend"),
        "Focus Task backend binary not found: /r/backend/focus-task-backend"
    );
}

#[test]
fn environment_of_the_backend() {
    let env = backend_environment("/data/todo.db", "s3cret");
    assert_eq!(
        env,
        vec![
            ("FOCUS_TASK_BACKEND_PORT".to_string(), "18765".to_string()),
            ("FOCUS_TASK_DATABASE_URL".to_string(), "sqlite:////data/todo.db".to_string()),
            ("FOCUS_TASK_SECRET_KEY".to_string(), "s3cret".to_string()),
        ]
    );
    assert_eq!(database_url("C:\\x\\todo.db"), "sqlite:///C:\\x\\todo.db");
}

#[test]
fn names_of_files() {
    assert_eq!(backend_binary_name(Platform::Windows), "focus-task-backend.exe");
    assert_eq!(backend_binary_name(Platform::MacOs), "focus-task-backend");
    assert_eq!(backend_binary_name(Platform::Other), "focus-task-backend");
    assert_eq!(staging_dir_name(), "backend.new");
    assert_eq!(BACKEND_RESOURCE_DIR, "backend");
    assert_eq!(BACKEND_DB_NAME, "todo.db");
    assert_eq!(BACKEND_SECRET_NAME, "secret.key");
}

#[test]
fn seed_database_only_when_missing() {
    assert!(should_copy_seed_database(false, true));
    assert!(!should_copy_seed_database(true, true));
    assert!(!should_copy_seed_database(false, false));
}

#[test]
fn existing_secret_is_trimmed() {
    assert_eq!(existing_secret("  abc\n"), Some("abc".to_string()));
    assert_eq!(existing_secret(" \n\t"), None);
    assert_eq!(existing_secret(""), None);
}

#[test]
fn generated_secret_format() {
    assert_eq!(generate_secret(1700000000123456789, 4242), "focus-task-desktop-1700000000123456789-4242");
    assert_eq!(generate_secret(0, 0), "focus-task-desktop-0-0");
}

#[test]
fn generated_secret_is_reused_when_read_back() {
    let s = generate_secret(987654321, 77);
    assert_eq!(existing_secret(&s), Some(s.clone()));
    match choose_secret(Some(format!("{s}\n")), 1, 2) {
        SecretChoice::Reuse(r) => assert_eq!(r, s),
        SecretChoice::Generate(_) => panic!("secret was not reused"),
    }
}

#[test]
fn secret_is_generated_when_unreadable_or_blank() {
    match choose_secret(None, 5, 6) {
        SecretChoice::Generate(s) => assert_eq!(s, "focus-task-desktop-5-6"),
        SecretChoice::Reuse(_) => panic!("nothing to reuse"),
    }
    match choose_secret(Some("   ".to_string()), 7, 8) {
        SecretChoice::Generate(s) => assert_eq!(s, "focus-task-desktop-7-8"),
        SecretChoice::Reuse(_) => panic!("blank secret reused"),
    }
}

#[test]
fn current_installation_is_kept() {
    let bundled = FileFacts { len: 10, modified: Some(100) };
    assert!(installed_is_current(&bundled, &FileFacts { len: 10, modified: Some(100) }));
    assert!(installed_is_current(&bundled, &FileFacts { len: 10, modified: Some(101) }));
    assert!(!installed_is_current(&bundled, &FileFacts { len: 10, modified: Some(99) }));
    assert!(!installed_is_current(&bundled, &FileFacts { len: 11, modified: Some(200) }));
    assert!(!installed_is_current(&bundled, &FileFacts { len: 10, modified: None }));
    assert!(installed_is_current(
        &FileFacts { len: 3, modified: None },
        &FileFacts { len: 3, modified: None }
    ));
    assert!(installed_is_current(
        &FileFacts { len: 3, modified: Some(-5) },
        &FileFacts { len: 3, modified: None }
    ));
}

#[test]
fn install_decisions() {
    let f = |len, t| FileFacts { len, modified: Some(t) };
    assert_eq!(install_decision(false, &None), InstallDecision::NotBundled);
    assert_eq!(install_decision(true, &None), InstallDecision::Reinstall);
    assert_eq!(install_decision(true, &Some((f(4, 1), f(4, 2)))), InstallDecision::UseInstalled);
    assert_eq!(install_decision(true, &Some((f(4, 3), f(4, 2)))), InstallDecision::Reinstall);
    assert_eq!(install_decision(true, &Some((f(9, 5), f(9, 5)))), InstallDecision::UseInstalled);
}

#[test]
fn reinstall_plans() {
    assert_eq!(
        reinstall_plan(true, true, true),
        vec![
            InstallAction::RemoveStaging,
            InstallAction::CopyBundleToStaging,
            InstallAction::SetExecutableMode(0o755),
            InstallAction::RemoveInstalled,
            InstallAction::MoveStagingIntoPlace,
        ]
    );
    assert_eq!(
        reinstall_plan(false, false, false),
        vec![InstallAction::CopyBundleToStaging, InstallAction::MoveStagingIntoPlace]
    );
}

#[test]
fn waiting_decisions() {
    assert_eq!(HEALTH_CHECK_ATTEMPTS, 150);
    assert_eq!(HEALTH_CHECK_INTERVAL_MS, 200);
    assert_eq!(wait_decision(0, true), WaitDecision::Ready);
    assert_eq!(wait_decision(0, false), WaitDecision::SleepThenCheck);
    assert_eq!(wait_decision(148, false), WaitDecision::SleepThenCheck);
    assert_eq!(wait_decision(149, false), WaitDecision::SleepThenGiveUp);
    assert_eq!(wait_decision(149, true), WaitDecision::Ready);
}

fn run_wait(answers: &[bool]) -> (bool, usize) {
    let mut done = 0u32;
    let mut checks = 0usize;
    loop {
        let healthy = answers[done as usize];
        checks += 1;
        match wait_decision(done, healthy) {
            WaitDecision::Ready => return (true, checks),
            WaitDecision::SleepThenCheck => done += 1,
            WaitDecision::SleepThenGiveUp => return (false, checks),
        }
    }
}

#[test]
fn waiting_is_ready_iff_one_of_the_checks_succeeds() {
    let mut answers = vec![false; 200];
    assert_eq!(run_wait(&answers), (false, 150));
    answers[149] = true;
    assert_eq!(run_wait(&answers), (true, 150));
    answers[149] = false;
    answers[150] = true;
    assert_eq!(run_wait(&answers), (false, 150));
    answers[3] = true;
    assert_eq!(run_wait(&answers), (true, 4));
}

#[test]
fn stopping_empties_the_slot() {
    let mut slot = Some(7);
    assert_eq!(stop_backend(&mut slot), Some(7));
    assert_eq!(slot, None);
    assert_eq!(stop_backend(&mut slot), None);
    assert_eq!(slot, None);
}

#[test]
fn launch_plan_of_the_backend() {
    let l = backend_launch("/data/bin/backend/focus-task-backend", "/data", "/data/todo.db", "k");
    assert_eq!(l.program, "/data/bin/backend/focus-task-backend");
    assert_eq!(l.working_dir, "/data");
    assert_eq!(l.stdout_log, "backend.out.log");
    assert_eq!(l.stderr_log, "backend.err.log");
    assert_eq!(l.env, backend_environment("/data/todo.db", "k"));
    assert_eq!(BACKEND_STDOUT_LOG, "backend.out.log");
    assert_eq!(BACKEND_STDERR_LOG, "backend.err.log");
    assert_eq!(BIN_DIR, "bin");
    assert_eq!(SEED_DIR, "seed");
    assert_eq!(FALLBACK_LOG_DIR, "logs");
}

#[test]
fn fresh_copy_is_reused_on_next_start() {
    let bundled = FileFacts { len: 42, modified: Some(1_000) };
    let copied = FileFacts { len: 42, modified: Some(5_000) };
    assert_eq!(install_decision(true, &Some((bundled, copied))), InstallDecision::UseInstalled);
}

#[test]
fn log_directory_per_platform() {
    assert_eq!(backend_log_dir(Platform::Windows), LogDirChoice::AppDataLogs);
    assert_eq!(backend_log_dir(Platform::MacOs), LogDirChoice::PlatformLogDir);
    assert_eq!(backend_log_dir(Platform::Other), LogDirChoice::PlatformLogDir);
}
