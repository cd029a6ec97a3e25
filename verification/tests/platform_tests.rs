use focus_task::platform::{
    app_event_action, applescript_string, close_request_action, mac_save_dialog_outcome,
    notification_command, notification_settings_command, save_dialog_command,
    windows_save_dialog_outcome, AppEvent, AppEventAction, CloseAction, Platform,
    SaveDialogOutcome,
};

#[test]
fn applescript_string_is_debug_format() {
    assert_eq!(applescript_string("Focus \"Task\""), format!("{:?}", "Focus \"Task\""));
    assert_eq!(applescript_string("备份.json"), "\"备份.json\"");
}

#[test]
fn notification_settings_commands() {
    let mac = notification_settings_command(Platform::MacOs).unwrap();
    assert_eq!(mac.program, "open");
    assert_eq!(mac.args, vec!["x-apple.systempreferences:com.apple.preference.notifications"]);
    let win = notification_settings_command(Platform::Windows).unwrap();
    assert_eq!(win.program, "powershell");
    assert_eq!(win.args, vec!["-Command", "Start-Process 'ms-settings:notifications'"]);
    assert_eq!(
        notification_settings_command(Platform::Other).err().unwrap(),
        "当前平台暂不支持直接打开通知设置"
    );
}

#[test]
fn mac_notification_script() {
    let n = notification_command(Platform::MacOs, "Due \"soon\"", "Write report").unwrap();
    assert!(n.report_failure);
    assert_eq!(n.command.program, "osascript");
    assert_eq!(n.command.args.len(), 2);
    assert_eq!(n.command.args[0], "-e");
    assert_eq!(
        n.command.args[1],
        format!(
            "display notification {:?} with title {:?} sound name \"default\"",
            "Write report", "Due \"soon\""
        )
    );
}

#[test]
fn windows_notification_script() {
    let n = notification_command(Platform::Windows, "T\"1", "B").unwrap();
    assert!(!n.report_failure);
    assert_eq!(n.command.program, "powershell");
    assert_eq!(n.command.args[0], "-NoProfile");
    assert_eq!(n.command.args[1], "-Command");
    let expected = format!(
        r#"[Windows.UI.Notifications.ToastNotificationManager, Windows.UI.Notifications, ContentType = WindowsRuntime] | Out-Null
[Windows.Data.Xml.Dom.XmlDocument, Windows.Data.Xml.Dom.XmlDocument, ContentType = WindowsRuntime] | Out-Null
$template = '<toast><visual><binding template="ToastGeneric"><text>{}</text><text>{}</text></binding></visual></toast>'
$xml = New-Object Windows.Data.Xml.Dom.XmlDocument
$xml.LoadXml($template)
$toast = [Windows.UI.Notifications.ToastNotification]::new($xml)
[Windows.UI.Notifications.ToastNotificationManager]::CreateToastNotifier('Focus Task').Show($toast)"#,
        "T`\"1", "B"
    );
    assert_eq!(n.command.args[2], expected);
}

#[test]
fn notification_unsupported_platform() {
    assert_eq!(
        notification_command(Platform::Other, "a", "b").err().unwrap(),
        "当前平台暂不支持原生通知"
    );
}

#[test]
fn save_dialog_commands() {
    let mac = save_dialog_command(Platform::MacOs, "focus-task.json").unwrap();
    assert_eq!(mac.program, "osascript");
    assert_eq!(
        mac.args,
        vec![
            "-e".to_string(),
            "set targetFile to choose file name with prompt \"导出 Focus Task 备份\" default name \"focus-task.json\"\nPOSIX path of targetFile".to_string()
        ]
    );
    let win = save_dialog_command(Platform::Windows, "a\"b.json").unwrap();
    assert_eq!(win.program, "powershell");
    let expected = format!(
        r#"Add-Type -AssemblyName System.Windows.Forms
$dialog = New-Object System.Windows.Forms.SaveFileDialog
$dialog.Title = '导出 Focus Task 备份'
$dialog.FileName = '{}'
$dialog.Filter = 'JSON 文件 (*.json)|*.json|所有文件 (*.*)|*.*'
$result = $dialog.ShowDialog()
if ($result -eq 'OK') {{ $dialog.FileName }} else {{ '' }}"#,
        "a`\"b.json"
    );
    assert_eq!(win.args, vec!["-NoProfile".to_string(), "-Command".to_string(), expected]);
    assert_eq!(
        save_dialog_command(Platform::Other, "x").err().unwrap(),
        "当前平台不支持原生文件保存"
    );
}

fn show(o: SaveDialogOutcome) -> String {
    match o {
        SaveDialogOutcome::Cancelled => "cancelled".into(),
        SaveDialogOutcome::Failed(m) => format!("failed:{m}"),
        SaveDialogOutcome::Chosen(p) => format!("chosen:{p}"),
    }
}

#[test]
fn mac_save_dialog_outcomes() {
    assert_eq!(show(mac_save_dialog_outcome(true, b"/Users/a/b.json\n".to_vec(), b"")), "chosen:/Users/a/b.json");
    assert_eq!(show(mac_save_dialog_outcome(true, b"  \n".to_vec(), b"")), "cancelled");
    assert_eq!(
        show(mac_save_dialog_outcome(false, Vec::new(), b"execution error: User canceled. (-128)\n")),
        "cancelled"
    );
    assert_eq!(show(mac_save_dialog_outcome(false, Vec::new(), b"  some failure \n")), "failed:some failure");
    let bad = mac_save_dialog_outcome(true, vec![0xc3, 0x28], b"");
    assert_eq!(show(bad), format!("failed:{}", String::from_utf8(vec![0xc3, 0x28]).unwrap_err()));
}

#[test]
fn windows_save_dialog_outcomes() {
    assert_eq!(show(windows_save_dialog_outcome(b"C:\\Users\\a\\b.json\r\n")), "chosen:C:\\Users\\a\\b.json");
    assert_eq!(show(windows_save_dialog_outcome(b"\r\n")), "cancelled");
    assert_eq!(show(windows_save_dialog_outcome(&[0x43, 0xff])), "chosen:C\u{fffd}");
}

#[test]
fn close_requests() {
    assert_eq!(close_request_action(Platform::MacOs, "main"), CloseAction::Hide);
    assert_eq!(close_request_action(Platform::Windows, "main"), CloseAction::Minimize);
    assert_eq!(close_request_action(Platform::Other, "main"), CloseAction::Close);
    assert_eq!(close_request_action(Platform::MacOs, "settings"), CloseAction::Close);
}

#[test]
fn application_events() {
    assert_eq!(app_event_action(Platform::MacOs, AppEvent::Exit), AppEventAction::StopBackend);
    assert_eq!(app_event_action(Platform::Windows, AppEvent::Exit), AppEventAction::StopBackend);
    assert_eq!(app_event_action(Platform::MacOs, AppEvent::Reopen), AppEventAction::RestoreMainWindow);
    assert_eq!(app_event_action(Platform::Windows, AppEvent::Reopen), AppEventAction::Ignore);
    assert_eq!(app_event_action(Platform::MacOs, AppEvent::Other), AppEventAction::Ignore);
}
