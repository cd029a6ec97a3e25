use focus_task::startup::{
    is_final_action, outcome_fits, first_start_action, start_failure_message, start_step, StartAction, StartEvent, StartFailure,
};

fn drive(events: Vec<StartEvent>) -> Vec<String> {
    let mut trace = Vec::new();
    let mut action = first_start_action();
    let mut events = events.into_iter();
    loop {
        trace.push(describe(&action));
        match action {
            StartAction::ReportMissingBinary | StartAction::Finish(_) => return trace,
            _ => {}
        }
        let event = events.next().expect("an outcome for every action");
        action = start_step(action, event);
    }
}

fn describe(a: &StartAction) -> String {
    match a {
        StartAction::CheckHealth => "check-health".into(),
        StartAction::CheckPort => "check-port".into(),
        StartAction::InstallBinary => "install".into(),
        StartAction::PrepareDatabase => "database".into(),
        StartAction::PrepareSecret => "secret".into(),
        StartAction::PrepareLogs => "logs".into(),
        StartAction::SpawnBackend => "spawn".into(),
        StartAction::AwaitReady => "await".into(),
        StartAction::StopBackend => "stop".into(),
        StartAction::ReportMissingBinary => "missing".into(),
        StartAction::Finish(Ok(())) => "ok".into(),
        StartAction::Finish(Err(StartFailure::PortInUse)) => "err:port".into(),
        StartAction::Finish(Err(StartFailure::Timeout)) => "err:timeout".into(),
        StartAction::Finish(Err(StartFailure::Io(m))) => format!("err:io:{m}"),
    }
}

#[test]
fn running_backend_is_kept() {
    assert_eq!(drive(vec![StartEvent::Healthy(true)]), vec!["check-health", "ok"]);
}

#[test]
fn foreign_service_on_port_is_an_error() {
    assert_eq!(
        drive(vec![StartEvent::Healthy(false), StartEvent::PortOpen(true)]),
        vec!["check-health", "check-port", "err:port"]
    );
}

#[test]
fn missing_binary_is_only_reported() {
    assert_eq!(
        drive(vec![StartEvent::Healthy(false), StartEvent::PortOpen(false), StartEvent::BinaryFound(false)]),
        vec!["check-health", "check-port", "install", "missing"]
    );
}

#[test]
fn full_successful_start() {
    assert_eq!(
        drive(vec![
            StartEvent::Healthy(false),
            StartEvent::PortOpen(false),
            StartEvent::BinaryFound(true),
            StartEvent::Succeeded,
            StartEvent::Succeeded,
            StartEvent::Succeeded,
            StartEvent::Succeeded,
            StartEvent::Ready(true),
        ]),
        vec!["check-health", "check-port", "install", "database", "secret", "logs", "spawn", "await", "ok"]
    );
}

#[test]
fn backend_that_never_answers_is_stopped() {
    let trace = drive(vec![
        StartEvent::Healthy(false),
        StartEvent::PortOpen(false),
        StartEvent::BinaryFound(true),
        StartEvent::Succeeded,
        StartEvent::Succeeded,
        StartEvent::Succeeded,
        StartEvent::Succeeded,
        StartEvent::Ready(false),
        StartEvent::Succeeded,
    ]);
    assert_eq!(trace.len(), 10);
    assert_eq!(trace[8], "stop");
    assert_eq!(trace[9], "err:timeout");
}

#[test]
fn failed_step_ends_with_its_message() {
    assert_eq!(
        drive(vec![
            StartEvent::Healthy(false),
            StartEvent::PortOpen(false),
            StartEvent::BinaryFound(true),
            StartEvent::Failed("disk full".into()),
        ]),
        vec!["check-health", "check-port", "install", "database", "err:io:disk full"]
    );
    assert_eq!(
        drive(vec![
            StartEvent::Healthy(false),
            StartEvent::PortOpen(false),
            StartEvent::Failed("no app data dir".into()),
        ]),
        vec!["check-health", "check-port", "install", "err:io:no app data dir"]
    );
}

#[test]
fn failure_messages() {
    assert_eq!(
        start_failure_message(StartFailure::PortInUse),
        "127.0.0.1:18765 已被占用，但不是 Focus Task 后端服务"
    );
    assert_eq!(start_failure_message(StartFailure::Timeout), "Focus Task 后端启动超时");
    assert_eq!(start_failure_message(StartFailure::Io("x".into())), "x");
}

#[test]
fn outcome_checks() {
    assert!(outcome_fits(&StartAction::CheckHealth, &StartEvent::Healthy(false)));
    assert!(!outcome_fits(&StartAction::CheckHealth, &StartEvent::Succeeded));
    assert!(outcome_fits(&StartAction::InstallBinary, &StartEvent::Failed("x".into())));
    assert!(!outcome_fits(&StartAction::StopBackend, &StartEvent::Failed("x".into())));
    assert!(!outcome_fits(&StartAction::Finish(Ok(())), &StartEvent::Succeeded));
    assert!(is_final_action(&StartAction::ReportMissingBinary));
    assert!(is_final_action(&StartAction::Finish(Ok(()))));
    assert!(!is_final_action(&StartAction::AwaitReady));
}
