use winboat_bridge::config::{listen_address, listen_port, select_mode, target_address, Mode};
use winboat_bridge::containment::{assign_to_new_job, JobDirective, JobError, JobPhase};

#[test]
fn server_flag_asks_for_the_default_port() {
    assert!(matches!(select_mode(true, None, None), Mode::Server { port: 5330 }));
}

#[test]
fn server_subcommand_brings_its_port() {
    assert!(matches!(select_mode(false, Some(8080), None), Mode::Server { port: 8080 }));
    assert!(matches!(select_mode(true, Some(8080), None), Mode::Server { port: 8080 }));
}

#[test]
fn server_wins_over_a_command() {
    assert!(matches!(
        select_mode(true, None, Some("dir".to_string())),
        Mode::Server { port: 5330 }
    ));
    assert!(matches!(
        select_mode(false, Some(1), Some("dir".to_string())),
        Mode::Server { port: 1 }
    ));
}

#[test]
fn command_asks_for_a_client() {
    match select_mode(false, None, Some("ipconfig".to_string())) {
        Mode::Client { command } => assert_eq!(command, "ipconfig"),
        other => panic!("{:?}", other),
    }
}

#[test]
fn nothing_asks_for_usage() {
    assert!(matches!(select_mode(false, None, None), Mode::Usage));
}

#[test]
fn configured_port_replaces_the_chosen_one() {
    assert_eq!(listen_port(Some("6000"), 5330), 6000);
    assert_eq!(listen_port(Some("0"), 5330), 0);
    assert_eq!(listen_port(Some("65535"), 5330), 65535);
    assert_eq!(listen_port(Some("+80"), 5330), 80);
}

#[test]
fn unreadable_port_leaves_the_chosen_one() {
    assert_eq!(listen_port(None, 5330), 5330);
    assert_eq!(listen_port(Some(""), 5330), 5330);
    assert_eq!(listen_port(Some("65536"), 5330), 5330);
    assert_eq!(listen_port(Some(" 6000"), 5330), 5330);
    assert_eq!(listen_port(Some("http"), 7), 7);
}

#[test]
fn server_binds_every_interface() {
    assert_eq!(listen_address(5330), "0.0.0.0:5330");
    assert_eq!(listen_address(0), "0.0.0.0:0");
}

#[test]
fn client_targets_this_machine() {
    assert_eq!(target_address(None), "127.0.0.1:47330");
    assert_eq!(target_address(Some("5330")), "127.0.0.1:5330");
    assert_eq!(target_address(Some("x y")), "127.0.0.1:x y");
}

#[test]
fn process_is_bound_by_three_calls() {
    let mut setup = assign_to_new_job(Some(0x44));
    assert_eq!(setup.phase(), JobPhase::Creating);
    assert_eq!(setup.directive(), JobDirective::CreateJob);
    assert!(setup.handle().is_none());
    assert_eq!(setup.step(0x100), JobDirective::SetKillOnClose(0x100));
    assert_eq!(setup.step(1), JobDirective::AssignProcess(0x100, 0x44));
    assert!(setup.handle().is_none());
    assert_eq!(setup.step(1), JobDirective::Finish);
    assert_eq!(setup.failure(), None);
    assert_eq!(setup.handle().unwrap().raw(), 0x100);
    assert_eq!(setup.step(0), JobDirective::Finish);
    assert_eq!(setup.handle().unwrap().raw(), 0x100);
}

#[test]
fn process_without_a_handle_cannot_be_bound() {
    let mut setup = assign_to_new_job(None);
    assert_eq!(setup.directive(), JobDirective::Fail);
    assert_eq!(setup.failure(), Some(JobError::NoProcess));
    assert_eq!(setup.step(5), JobDirective::Fail);
    assert!(setup.handle().is_none());
}

#[test]
fn job_that_cannot_be_created_is_an_error() {
    let mut setup = assign_to_new_job(Some(9));
    assert_eq!(setup.step(0), JobDirective::Fail);
    assert_eq!(setup.failure(), Some(JobError::Create));
    assert!(setup.handle().is_none());
}

#[test]
fn job_is_closed_when_a_later_call_fails() {
    let mut setup = assign_to_new_job(Some(9));
    setup.step(0x20);
    assert_eq!(setup.step(0), JobDirective::CloseJob(0x20));
    assert_eq!(setup.failure(), Some(JobError::Configure));
    assert!(setup.handle().is_none());
    assert_eq!(setup.step(1), JobDirective::Fail);
    assert_eq!(setup.failure(), Some(JobError::Configure));

    let mut setup = assign_to_new_job(Some(9));
    setup.step(0x20);
    setup.step(1);
    assert_eq!(setup.step(0), JobDirective::CloseJob(0x20));
    assert_eq!(setup.failure(), Some(JobError::Assign));
    assert_eq!(setup.step(0), JobDirective::Fail);
    assert!(setup.handle().is_none());
}
