//! Plans for the commands the shell runs on each platform: opening the
//! notification settings, posting a native notification and asking the user
//! where to save a file, plus how a window close request is handled.

use vstd::prelude::*;
use vstd::utf8::{decode_utf8, valid_utf8};
use crate::text::{
    debug_escaped, is_common_ascii, law_quoted_ascii_text_reads_back, stays_inside_literal,
    unescaped, backtick_escaped, contains, contains_seq, debug_quote, debug_quoted, decode_lossy,
    decode_strict, escape_double_quotes_with_backtick, same_text, lossy_utf8, trim, trimmed,
    utf8_error_text,
};

verus! {

/// The operating systems the shell distinguishes.
#[derive(Clone, Copy, Debug, PartialEq, Eq, Structural)]
pub enum Platform {
    MacOs,
    Windows,
    Other,
}

/// A program to run and its arguments.
pub struct CommandSpec {
    pub program: String,
    pub args: Vec<String>,
}

/// The contents of a `CommandSpec`.
pub struct CommandView {
    pub program: Seq<char>,
    pub args: Seq<Seq<char>>,
}

impl View for CommandSpec {
    type V = CommandView;

    open spec fn view(&self) -> CommandView {
        CommandView { program: self.program@, args: self.args@.map_values(|a: String| a@) }
    }
}

/// A planned command, or the message for a platform that has none.
pub open spec fn plan_view(r: Result<CommandSpec, String>) -> Result<CommandView, Seq<char>> {
    match r {
        Ok(c) => Ok(c@),
        Err(m) => Err(m@),
    }
}

fn command(program: &str, args: Vec<String>) -> (c: CommandSpec)
    ensures
        c.program@ == program@,
        c.args@ == args@,
{
    CommandSpec { program: String::from_str(program), args }
}

fn arg_list1(a: String) -> (v: Vec<String>)
    ensures
        v@.map_values(|s: String| s@) == seq![a@],
{
    let mut v = Vec::new();
    v.push(a);
    assert(v@.map_values(|s: String| s@) =~= seq![a@]);
    v
}

fn arg_list2(a: String, b: String) -> (v: Vec<String>)
    ensures
        v@.map_values(|s: String| s@) == seq![a@, b@],
{
    let mut v = Vec::new();
    v.push(a);
    v.push(b);
    assert(v@.map_values(|s: String| s@) =~= seq![a@, b@]);
    v
}

fn arg_list3(a: String, b: String, c: String) -> (v: Vec<String>)
    ensures
        v@.map_values(|s: String| s@) == seq![a@, b@, c@],
{
    let mut v = Vec::new();
    v.push(a);
    v.push(b);
    v.push(c);
    assert(v@.map_values(|s: String| s@) =~= seq![a@, b@, c@]);
    v
}

/// `format!("{:?}", value)`: the AppleScript string literal for `value`.
pub fn applescript_string(value: &str) -> (r: String)
    ensures
        r@ == debug_quoted(value@),
{
    debug_quote(value)
}

// ───────────────────────── notification settings ─────────────────────────

/// What opening the notification settings runs on each platform.
pub open spec fn notification_settings_plan(p: Platform) -> Result<CommandView, Seq<char>> {
    match p {
        Platform::MacOs => Ok(
            CommandView {
                program: "open"@,
                args: seq!["x-apple.systempreferences:com.apple.preference.notifications"@],
            },
        ),
        Platform::Windows => Ok(
            CommandView {
                program: "powershell"@,
                args: seq!["-Command"@, "Start-Process 'ms-settings:notifications'"@],
            },
        ),
        Platform::Other => Err("当前平台暂不支持直接打开通知设置"@),
    }
}

/// The command that opens the system notification settings, or the message
/// for a platform without one.
pub fn notification_settings_command(p: Platform) -> (r: Result<CommandSpec, String>)
    ensures
        plan_view(r) == notification_settings_plan(p),
{
    match p {
        Platform::MacOs => {
            let args = arg_list1(
                String::from_str("x-apple.systempreferences:com.apple.preference.notifications"),
            );
            let c = command("open", args);
            assert(c@ =~= notification_settings_plan(p)->Ok_0);
            Ok(c)
        },
        Platform::Windows => {
            let args = arg_list2(
                String::from_str("-Command"),
                String::from_str("Start-Process 'ms-settings:notifications'"),
            );
            let c = command("powershell", args);
            assert(c@ =~= notification_settings_plan(p)->Ok_0);
            Ok(c)
        },
        Platform::Other => Err(String::from_str("当前平台暂不支持直接打开通知设置")),
    }
}


// ───────────────────────── native notification ─────────────────────────

/// The AppleScript that posts a notification.
pub open spec fn mac_notification_script(title: Seq<char>, body: Seq<char>) -> Seq<char> {
    "display notification "@ + debug_quoted(body) + " with title "@ + debug_quoted(title)
        + " sound name \"default\""@
}

/// The PowerShell script that shows a toast notification.
pub open spec fn windows_toast_script(title: Seq<char>, body: Seq<char>) -> Seq<char> {
    "[Windows.UI.Notifications.ToastNotificationManager, Windows.UI.Notifications, ContentType = WindowsRuntime] | Out-Null\n[Windows.Data.Xml.Dom.XmlDocument, Windows.Data.Xml.Dom.XmlDocument, ContentType = WindowsRuntime] | Out-Null\n$template = '<toast><visual><binding template=\"ToastGeneric\"><text>"@
        + backtick_escaped(title) + "</text><text>"@ + backtick_escaped(body)
        + "</text></binding></visual></toast>'\n$xml = New-Object Windows.Data.Xml.Dom.XmlDocument\n$xml.LoadXml($template)\n$toast = [Windows.UI.Notifications.ToastNotification]::new($xml)\n[Windows.UI.Notifications.ToastNotificationManager]::CreateToastNotifier('Focus Task').Show($toast)"@
}

/// All characters of a text are common ASCII.
pub open spec fn all_common_ascii(s: Seq<char>) -> bool {
    forall|i: int| 0 <= i < s.len() ==> is_common_ascii(#[trigger] s[i])
}

/// On macOS a notification is posted by `osascript -e` with a script that
/// holds the body and the title each as one AppleScript string literal, and
/// a failure to run it is reported. For ASCII title and body, neither can
/// end its literal early, and each literal reads back as the text.
pub proof fn law_mac_notification_quotes_title_and_body(title: Seq<char>, body: Seq<char>)
    ensures
        notification_plan(Platform::MacOs, title, body) is Ok,
        notification_plan(Platform::MacOs, title, body)->Ok_0.1,
        notification_plan(Platform::MacOs, title, body)->Ok_0.0.program == "osascript"@,
        exists|eb: Seq<char>, et: Seq<char>|
            {
                &&& notification_plan(Platform::MacOs, title, body)->Ok_0.0.args == seq![
                    "-e"@,
                    "display notification \""@ + eb + "\" with title \""@ + et
                        + "\" sound name \"default\""@,
                ]
                &&& all_common_ascii(body) ==> stays_inside_literal(eb) && unescaped(eb) == body
                &&& all_common_ascii(title) ==> stays_inside_literal(et) && unescaped(et) == title
            },
{
    reveal_strlit("display notification ");
    reveal_strlit("display notification \"");
    reveal_strlit(" with title ");
    reveal_strlit("\" with title \"");
    reveal_strlit(" sound name \"default\"");
    reveal_strlit("\" sound name \"default\"");
    let eb = debug_escaped(body);
    let et = debug_escaped(title);
    let q = seq!['"'];
    assert("display notification \""@ =~= "display notification "@ + q);
    assert("\" with title \""@ =~= q + " with title "@ + q);
    assert("\" sound name \"default\""@ =~= q + " sound name \"default\""@);
    assert(mac_notification_script(title, body) =~= "display notification \""@ + eb
        + "\" with title \""@ + et + "\" sound name \"default\""@);
    if all_common_ascii(body) {
        law_quoted_ascii_text_reads_back(body);
    }
    if all_common_ascii(title) {
        law_quoted_ascii_text_reads_back(title);
    }
    assert(notification_plan(Platform::MacOs, title, body)->Ok_0.0.args =~= seq![
        "-e"@,
        "display notification \""@ + eb + "\" with title \""@ + et + "\" sound name \"default\""@,
    ]);
}

/// A notification command, and whether a failure to run it is reported to
/// the caller (on Windows it is ignored).
pub struct NotificationCommand {
    pub command: CommandSpec,
    pub report_failure: bool,
}

/// What posting a notification runs on each platform.
pub open spec fn notification_plan(p: Platform, title: Seq<char>, body: Seq<char>) -> Result<
    (CommandView, bool),
    Seq<char>,
> {
    match p {
        Platform::MacOs => Ok(
            (
                CommandView {
                    program: "osascript"@,
                    args: seq!["-e"@, mac_notification_script(title, body)],
                },
                true,
            ),
        ),
        Platform::Windows => Ok(
            (
                CommandView {
                    program: "powershell"@,
                    args: seq!["-NoProfile"@, "-Command"@, windows_toast_script(title, body)],
                },
                false,
            ),
        ),
        Platform::Other => Err("当前平台暂不支持原生通知"@),
    }
}

/// The view of a planned notification command.
pub open spec fn notification_view(r: Result<NotificationCommand, String>) -> Result<
    (CommandView, bool),
    Seq<char>,
> {
    match r {
        Ok(n) => Ok((n.command@, n.report_failure)),
        Err(m) => Err(m@),
    }
}

/// The command that posts a native notification with the given title and
/// body, or the message for a platform without one.
pub fn notification_command(p: Platform, title: &str, body: &str) -> (r: Result<
    NotificationCommand,
    String,
>)
    ensures
        notification_view(r) == notification_plan(p, title@, body@),
{
    match p {
        Platform::MacOs => {
            let mut script = String::from_str("display notification ");
            let b = applescript_string(body);
            script.append(b.as_str());
            script.append(" with title ");
            let t = applescript_string(title);
            script.append(t.as_str());
            script.append(" sound name \"default\"");
            let args = arg_list2(String::from_str("-e"), script);
            let c = command("osascript", args);
            assert(c@ =~= notification_plan(p, title@, body@)->Ok_0.0);
            Ok(NotificationCommand { command: c, report_failure: true })
        },
        Platform::Windows => {
            let mut script = String::from_str(
                "[Windows.UI.Notifications.ToastNotificationManager, Windows.UI.Notifications, ContentType = WindowsRuntime] | Out-Null\n[Windows.Data.Xml.Dom.XmlDocument, Windows.Data.Xml.Dom.XmlDocument, ContentType = WindowsRuntime] | Out-Null\n$template = '<toast><visual><binding template=\"ToastGeneric\"><text>",
            );
            let t = escape_double_quotes_with_backtick(title);
            script.append(t.as_str());
            script.append("</text><text>");
            let b = escape_double_quotes_with_backtick(body);
            script.append(b.as_str());
            script.append(
                "</text></binding></visual></toast>'\n$xml = New-Object Windows.Data.Xml.Dom.XmlDocument\n$xml.LoadXml($template)\n$toast = [Windows.UI.Notifications.ToastNotification]::new($xml)\n[Windows.UI.Notifications.ToastNotificationManager]::CreateToastNotifier('Focus Task').Show($toast)",
            );
            let args = arg_list3(String::from_str("-NoProfile"), String::from_str("-Command"), script);
            let c = command("powershell", args);
            assert(c@ =~= notification_plan(p, title@, body@)->Ok_0.0);
            Ok(NotificationCommand { command: c, report_failure: false })
        },
        Platform::Other => Err(String::from_str("当前平台暂不支持原生通知")),
    }
}

// ───────────────────────── save file dialog ─────────────────────────

/// The AppleScript that asks for a file name to save under.
pub open spec fn mac_save_dialog_script(filename: Seq<char>) -> Seq<char> {
    "set targetFile to choose file name with prompt \"导出 Focus Task 备份\" default name "@
        + debug_quoted(filename) + "\nPOSIX path of targetFile"@
}

/// The PowerShell script that shows a save-file dialog.
pub open spec fn windows_save_dialog_script(filename: Seq<char>) -> Seq<char> {
    "Add-Type -AssemblyName System.Windows.Forms\n$dialog = New-Object System.Windows.Forms.SaveFileDialog\n$dialog.Title = '导出 Focus Task 备份'\n$dialog.FileName = '"@
        + backtick_escaped(filename)
        + "'\n$dialog.Filter = 'JSON 文件 (*.json)|*.json|所有文件 (*.*)|*.*'\n$result = $dialog.ShowDialog()\nif ($result -eq 'OK') { $dialog.FileName } else { '' }"@
}

/// On macOS the save dialog is run by `osascript -e` with a script that holds
/// the suggested file name as one AppleScript string literal; for an ASCII
/// name it cannot end the literal early and reads back as the name.
pub proof fn law_mac_save_dialog_quotes_filename(filename: Seq<char>)
    ensures
        save_dialog_plan(Platform::MacOs, filename) is Ok,
        save_dialog_plan(Platform::MacOs, filename)->Ok_0.program == "osascript"@,
        exists|ef: Seq<char>|
            {
                &&& save_dialog_plan(Platform::MacOs, filename)->Ok_0.args == seq![
                    "-e"@,
                    "set targetFile to choose file name with prompt \"导出 Focus Task 备份\" default name \""@
                        + ef + "\"\nPOSIX path of targetFile"@,
                ]
                &&& all_common_ascii(filename) ==> stays_inside_literal(ef) && unescaped(ef)
                    == filename
            },
{
    reveal_strlit("set targetFile to choose file name with prompt \"导出 Focus Task 备份\" default name ");
    reveal_strlit("set targetFile to choose file name with prompt \"导出 Focus Task 备份\" default name \"");
    reveal_strlit("\nPOSIX path of targetFile");
    reveal_strlit("\"\nPOSIX path of targetFile");
    let ef = debug_escaped(filename);
    let q = seq!['"'];
    assert("set targetFile to choose file name with prompt \"导出 Focus Task 备份\" default name \""@
        =~= "set targetFile to choose file name with prompt \"导出 Focus Task 备份\" default name "@
        + q);
    assert("\"\nPOSIX path of targetFile"@ =~= q + "\nPOSIX path of targetFile"@);
    assert(mac_save_dialog_script(filename)
        =~= "set targetFile to choose file name with prompt \"导出 Focus Task 备份\" default name \""@
        + ef + "\"\nPOSIX path of targetFile"@);
    if all_common_ascii(filename) {
        law_quoted_ascii_text_reads_back(filename);
    }
    assert(save_dialog_plan(Platform::MacOs, filename)->Ok_0.args =~= seq![
        "-e"@,
        "set targetFile to choose file name with prompt \"导出 Focus Task 备份\" default name \""@
            + ef + "\"\nPOSIX path of targetFile"@,
    ]);
}

/// What asking for a save location runs on each platform.
pub open spec fn save_dialog_plan(p: Platform, filename: Seq<char>) -> Result<CommandView, Seq<char>> {
    match p {
        Platform::MacOs => Ok(
            CommandView { program: "osascript"@, args: seq!["-e"@, mac_save_dialog_script(filename)] },
        ),
        Platform::Windows => Ok(
            CommandView {
                program: "powershell"@,
                args: seq!["-NoProfile"@, "-Command"@, windows_save_dialog_script(filename)],
            },
        ),
        Platform::Other => Err("当前平台不支持原生文件保存"@),
    }
}

/// The command that asks the user where to save `filename`, or the message
/// for a platform without a native dialog.
pub fn save_dialog_command(p: Platform, filename: &str) -> (r: Result<CommandSpec, String>)
    ensures
        plan_view(r) == save_dialog_plan(p, filename@),
{
    match p {
        Platform::MacOs => {
            let mut script = String::from_str(
                "set targetFile to choose file name with prompt \"导出 Focus Task 备份\" default name ",
            );
            let f = applescript_string(filename);
            script.append(f.as_str());
            script.append("\nPOSIX path of targetFile");
            let args = arg_list2(String::from_str("-e"), script);
            let c = command("osascript", args);
            assert(c@ =~= save_dialog_plan(p, filename@)->Ok_0);
            Ok(c)
        },
        Platform::Windows => {
            let mut script = String::from_str(
                "Add-Type -AssemblyName System.Windows.Forms\n$dialog = New-Object System.Windows.Forms.SaveFileDialog\n$dialog.Title = '导出 Focus Task 备份'\n$dialog.FileName = '",
            );
            let f = escape_double_quotes_with_backtick(filename);
            script.append(f.as_str());
            script.append(
                "'\n$dialog.Filter = 'JSON 文件 (*.json)|*.json|所有文件 (*.*)|*.*'\n$result = $dialog.ShowDialog()\nif ($result -eq 'OK') { $dialog.FileName } else { '' }",
            );
            let args = arg_list3(String::from_str("-NoProfile"), String::from_str("-Command"), script);
            let c = command("powershell", args);
            assert(c@ =~= save_dialog_plan(p, filename@)->Ok_0);
            Ok(c)
        },
        Platform::Other => Err(String::from_str("当前平台不支持原生文件保存")),
    }
}

/// How a save dialog ended.
pub enum SaveDialogOutcome {
    /// The user cancelled, or chose nothing: nothing is written.
    Cancelled,
    /// The dialog failed with this message.
    Failed(String),
    /// The user chose this path.
    Chosen(String),
}

/// The contents of a `SaveDialogOutcome`.
pub enum SaveOutcomeView {
    Cancelled,
    Failed(Seq<char>),
    Chosen(Seq<char>),
}

impl View for SaveDialogOutcome {
    type V = SaveOutcomeView;

    open spec fn view(&self) -> SaveOutcomeView {
        match self {
            SaveDialogOutcome::Cancelled => SaveOutcomeView::Cancelled,
            SaveDialogOutcome::Failed(m) => SaveOutcomeView::Failed(m@),
            SaveDialogOutcome::Chosen(p) => SaveOutcomeView::Chosen(p@),
        }
    }
}

/// A trimmed path, or a cancellation when nothing is left of it.
pub open spec fn chosen_or_cancelled(path: Seq<char>) -> SaveOutcomeView {
    if trimmed(path).len() == 0 {
        SaveOutcomeView::Cancelled
    } else {
        SaveOutcomeView::Chosen(trimmed(path))
    }
}

/// How the AppleScript dialog's exit status and output are read: a failed
/// run whose error output mentions `-128` (user cancelled) is a cancellation,
/// any other failed run is an error with the trimmed error output; a
/// successful run's output must be UTF-8, and its trimmed text is the path.
pub open spec fn mac_save_outcome(success: bool, stdout: Seq<u8>, stderr: Seq<u8>) -> SaveOutcomeView {
    if !success {
        if contains_seq(lossy_utf8(stderr), "-128"@) {
            SaveOutcomeView::Cancelled
        } else {
            SaveOutcomeView::Failed(trimmed(lossy_utf8(stderr)))
        }
    } else if !valid_utf8(stdout) {
        SaveOutcomeView::Failed(utf8_error_text(stdout))
    } else {
        chosen_or_cancelled(decode_utf8(stdout))
    }
}

/// On macOS a failed dialog run whose error output mentions `-128` (the
/// user cancelled) is a cancellation, whatever else the error text says, in
/// any language; any other failed run is an error carrying the trimmed error
/// text.
pub proof fn law_mac_cancel_is_not_an_error(stdout: Seq<u8>, stderr: Seq<u8>)
    ensures
        contains_seq(lossy_utf8(stderr), "-128"@) ==> mac_save_outcome(false, stdout, stderr)
            == SaveOutcomeView::Cancelled,
        !contains_seq(lossy_utf8(stderr), "-128"@) ==> mac_save_outcome(false, stdout, stderr)
            == SaveOutcomeView::Failed(trimmed(lossy_utf8(stderr))),
{
}

/// On macOS a successful dialog run chooses the trimmed text of its output
/// when that is valid UTF-8 and not blank; blank output is a cancellation
/// and output that is not UTF-8 is an error. On Windows the trimmed text of
/// the output is the path, and blank output is a cancellation.
pub proof fn law_dialog_output_is_the_chosen_path(stdout: Seq<u8>, stderr: Seq<u8>)
    ensures
        valid_utf8(stdout) && trimmed(decode_utf8(stdout)).len() > 0 ==> mac_save_outcome(
            true,
            stdout,
            stderr,
        ) == SaveOutcomeView::Chosen(trimmed(decode_utf8(stdout))),
        valid_utf8(stdout) && trimmed(decode_utf8(stdout)).len() == 0 ==> mac_save_outcome(
            true,
            stdout,
            stderr,
        ) == SaveOutcomeView::Cancelled,
        !valid_utf8(stdout) ==> mac_save_outcome(true, stdout, stderr) is Failed,
        trimmed(lossy_utf8(stdout)).len() > 0 ==> windows_save_outcome(stdout)
            == SaveOutcomeView::Chosen(trimmed(lossy_utf8(stdout))),
        trimmed(lossy_utf8(stdout)).len() == 0 ==> windows_save_outcome(stdout)
            == SaveOutcomeView::Cancelled,
{
}

/// How the PowerShell dialog's output is read: its trimmed text, decoded
/// leniently, is the path; the exit status is not consulted.
pub open spec fn windows_save_outcome(stdout: Seq<u8>) -> SaveOutcomeView {
    chosen_or_cancelled(lossy_utf8(stdout))
}

fn chosen_path(path: &str) -> (r: SaveDialogOutcome)
    ensures
        r@ == chosen_or_cancelled(path@),
{
    let t = trim(path);
    if t.as_str().is_empty() {
        SaveDialogOutcome::Cancelled
    } else {
        SaveDialogOutcome::Chosen(t)
    }
}

/// Reads the result of the macOS save dialog.
pub fn mac_save_dialog_outcome(success: bool, stdout: Vec<u8>, stderr: &[u8]) -> (r:
    SaveDialogOutcome)
    ensures
        r@ == mac_save_outcome(success, stdout@, stderr@),
{
    if !success {
        let e = decode_lossy(stderr);
        if contains(e.as_str(), "-128") {
            return SaveDialogOutcome::Cancelled;
        }
        return SaveDialogOutcome::Failed(trim(e.as_str()));
    }
    match decode_strict(stdout) {
        Ok(text) => chosen_path(text.as_str()),
        Err(m) => SaveDialogOutcome::Failed(m),
    }
}

/// Reads the result of the Windows save dialog.
pub fn windows_save_dialog_outcome(stdout: &[u8]) -> (r: SaveDialogOutcome)
    ensures
        r@ == windows_save_outcome(stdout@),
{
    let text = decode_lossy(stdout);
    chosen_path(text.as_str())
}


// ───────────────────────── window and application events ─────────────────────────

/// The label of the application's main window.
pub const MAIN_WINDOW: &'static str = "main";

/// What happens when the user asks to close a window.
#[derive(Clone, Copy, Debug, PartialEq, Eq, Structural)]
pub enum CloseAction {
    /// The window closes.
    Close,
    /// The close is prevented and the window is hidden (macOS menu-bar style).
    Hide,
    /// The close is prevented and the window is minimized (Windows taskbar style).
    Minimize,
}

/// The close action for a window label on a platform.
pub open spec fn close_action_spec(p: Platform, label: Seq<char>) -> CloseAction {
    if label == MAIN_WINDOW@ {
        match p {
            Platform::MacOs => CloseAction::Hide,
            Platform::Windows => CloseAction::Minimize,
            Platform::Other => CloseAction::Close,
        }
    } else {
        CloseAction::Close
    }
}

/// Decides what a close request on the window labelled `label` does: the
/// main window stays alive (hidden on macOS, minimized on Windows).
pub fn close_request_action(p: Platform, label: &str) -> (r: CloseAction)
    ensures
        r == close_action_spec(p, label@),
{
    if same_text(label, MAIN_WINDOW) {
        match p {
            Platform::MacOs => CloseAction::Hide,
            Platform::Windows => CloseAction::Minimize,
            Platform::Other => CloseAction::Close,
        }
    } else {
        CloseAction::Close
    }
}

/// The main window is never closed on macOS or Windows (it is hidden or
/// minimized instead), and every other window closes normally.
pub proof fn law_main_window_survives_close(p: Platform, label: Seq<char>)
    ensures
        label == MAIN_WINDOW@ && p == Platform::MacOs ==> close_action_spec(p, label)
            == CloseAction::Hide,
        label == MAIN_WINDOW@ && p == Platform::Windows ==> close_action_spec(p, label)
            == CloseAction::Minimize,
        label != MAIN_WINDOW@ ==> close_action_spec(p, label) == CloseAction::Close,
{
}

/// The application events the shell reacts to.
#[derive(Clone, Copy, Debug, PartialEq, Eq, Structural)]
pub enum AppEvent {
    /// The dock icon was clicked while the application runs (macOS).
    Reopen,
    /// The application is exiting.
    Exit,
    /// Anything else.
    Other,
}

/// What the shell does on an application event.
#[derive(Clone, Copy, Debug, PartialEq, Eq, Structural)]
pub enum AppEventAction {
    /// Unminimize, show and focus the main window.
    RestoreMainWindow,
    /// Stop the backend process.
    StopBackend,
    /// Nothing.
    Ignore,
}

/// The action for an application event on a platform.
pub open spec fn app_event_action_spec(p: Platform, e: AppEvent) -> AppEventAction {
    match e {
        AppEvent::Exit => AppEventAction::StopBackend,
        AppEvent::Reopen => if p == Platform::MacOs {
            AppEventAction::RestoreMainWindow
        } else {
            AppEventAction::Ignore
        },
        AppEvent::Other => AppEventAction::Ignore,
    }
}

/// Exiting stops the backend on every platform; nothing else does.
pub proof fn law_exit_stops_backend(p: Platform, e: AppEvent)
    ensures
        (app_event_action_spec(p, e) == AppEventAction::StopBackend) <==> (e == AppEvent::Exit),
        app_event_action_spec(p, e) == AppEventAction::RestoreMainWindow <==> (e == AppEvent::Reopen
            && p == Platform::MacOs),
{
}

/// Decides what an application event does: exiting stops the backend, and
/// reopening on macOS brings the main window back.
pub fn app_event_action(p: Platform, e: AppEvent) -> (r: AppEventAction)
    ensures
        r == app_event_action_spec(p, e),
{
    match e {
        AppEvent::Exit => AppEventAction::StopBackend,
        AppEvent::Reopen => match p {
            Platform::MacOs => AppEventAction::RestoreMainWindow,
            _ => AppEventAction::Ignore,
        },
        AppEvent::Other => AppEventAction::Ignore,
    }
}

} // verus!
