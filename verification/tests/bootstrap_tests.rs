use winboat_bridge::bootstrap::{
    collaborator_arguments, collaborator_program, script, start_command, Bootstrap,
    BootstrapConfig, BootstrapDirective, BootstrapError, BootstrapEvent, BootstrapPhase,
    BootstrapReport, BOOTSTRAP_TIMEOUT_MS,
};

fn sample() -> BootstrapConfig {
    BootstrapConfig {
        exe_path: "C:\\bridge\\bridge.exe".to_string(),
        log_path: "C:\\logs\\server.log".to_string(),
        err_path: "C:\\logs\\server.err".to_string(),
        host: "10.0.0.7".to_string(),
        port: "5985".to_string(),
        user: "operator".to_string(),
        password: "SECRET-REDACTED".to_string(),
    }
}

fn waiting() -> Bootstrap {
    let mut b = Bootstrap::new();
    assert_eq!(b.step(BootstrapEvent::Launched), BootstrapDirective::Feed);
    assert_eq!(b.step(BootstrapEvent::Fed), BootstrapDirective::Await);
    b
}

#[test]
fn bootstrap_timeout_is_as_documented() {
    assert_eq!(BOOTSTRAP_TIMEOUT_MS, 15000);
}

#[test]
fn start_command_names_binary_and_redirections() {
    assert_eq!(
        start_command(&sample()),
        "Start-Process -FilePath 'C:\\bridge\\bridge.exe' -ArgumentList '--server' \
         -WindowStyle Hidden -RedirectStandardOutput 'C:\\logs\\server.log' \
         -RedirectStandardError 'C:\\logs\\server.err'"
    );
}

#[test]
fn script_wraps_the_command_and_leaves_the_shell() {
    let text = script(&sample());
    assert_eq!(
        text,
        format!("powershell -Command \"{}\"\nexit\n", start_command(&sample()))
    );
    assert!(text.ends_with("'\"\nexit\n"));
}

#[test]
fn script_takes_paths_as_they_are() {
    let mut config = sample();
    config.exe_path = String::new();
    config.log_path = "a b".to_string();
    config.err_path = "it's".to_string();
    assert_eq!(
        script(&config),
        "powershell -Command \"Start-Process -FilePath '' -ArgumentList '--server' \
         -WindowStyle Hidden -RedirectStandardOutput 'a b' -RedirectStandardError 'it's'\"\nexit\n"
    );
}

#[test]
fn collaborator_is_called_with_its_four_settings() {
    assert_eq!(collaborator_program(), "evil-winrm");
    assert_eq!(
        collaborator_arguments(&sample()),
        vec!["-i", "10.0.0.7", "-P", "5985", "-u", "operator", "-p", "SECRET-REDACTED"]
    );
}

#[test]
fn bootstrap_begins_by_launching() {
    let b = Bootstrap::new();
    assert_eq!(b.phase(), BootstrapPhase::Launching);
    assert_eq!(b.directive(), BootstrapDirective::Launch);
    assert_eq!(b.report(), None);
    assert_eq!(b.failure(), None);
}

#[test]
fn clean_exit_reports_started() {
    let mut b = waiting();
    assert_eq!(b.step(BootstrapEvent::Exited(true)), BootstrapDirective::Finish);
    assert_eq!(b.report(), Some(BootstrapReport::Started));
    assert_eq!(b.failure(), None);
}

#[test]
fn error_exit_still_counts_as_run() {
    let mut b = waiting();
    assert_eq!(b.step(BootstrapEvent::Exited(false)), BootstrapDirective::Finish);
    assert_eq!(b.report(), Some(BootstrapReport::Unconfirmed));
    assert_eq!(b.failure(), None);
}

#[test]
fn hung_collaborator_is_killed_and_the_start_assumed() {
    let mut b = waiting();
    assert_eq!(b.step(BootstrapEvent::TimedOut), BootstrapDirective::KillLocal);
    assert_eq!(b.phase(), BootstrapPhase::Reaping);
    assert_eq!(b.step(BootstrapEvent::Exited(true)), BootstrapDirective::KillLocal);
    assert_eq!(b.step(BootstrapEvent::Reaped), BootstrapDirective::Finish);
    assert_eq!(b.report(), Some(BootstrapReport::Assumed));
}

#[test]
fn collaborator_that_cannot_be_run_is_an_error() {
    let mut b = Bootstrap::new();
    assert_eq!(b.step(BootstrapEvent::LaunchFailed), BootstrapDirective::Fail);
    assert_eq!(b.failure(), Some(BootstrapError::Launch));
    assert_eq!(b.report(), None);

    let mut b = Bootstrap::new();
    b.step(BootstrapEvent::Launched);
    assert_eq!(b.step(BootstrapEvent::FeedFailed), BootstrapDirective::Fail);
    assert_eq!(b.failure(), Some(BootstrapError::Feed));

    let mut b = waiting();
    assert_eq!(b.step(BootstrapEvent::WaitFailed), BootstrapDirective::Fail);
    assert_eq!(b.failure(), Some(BootstrapError::Wait));
}

#[test]
fn ended_bootstrap_ignores_everything() {
    let mut b = waiting();
    b.step(BootstrapEvent::Exited(true));
    for event in [BootstrapEvent::TimedOut, BootstrapEvent::WaitFailed, BootstrapEvent::Launched] {
        assert_eq!(b.step(event), BootstrapDirective::Finish);
    }
    assert_eq!(b.report(), Some(BootstrapReport::Started));
}
