use winboat_bridge::listener::{
    BindError, Listener, ListenerDirective, ListenerEvent, ListenerPhase, DEFAULT_SERVER_PORT,
    REBIND_DELAY_MS,
};

fn accepting() -> Listener {
    let mut l = Listener::new(false);
    assert_eq!(l.step(ListenerEvent::Bound), ListenerDirective::Accept);
    l
}

#[test]
fn listener_limits_are_as_documented() {
    assert_eq!(DEFAULT_SERVER_PORT, 5330);
    assert_eq!(REBIND_DELAY_MS, 1000);
}

#[test]
fn listener_begins_by_binding() {
    let l = Listener::new(true);
    assert_eq!(l.phase(), ListenerPhase::Binding);
    assert_eq!(l.directive(), ListenerDirective::Bind);
    assert_eq!(l.failure(), None);
}

#[test]
fn taken_port_is_an_error_where_it_cannot_be_reclaimed() {
    let mut l = Listener::new(false);
    assert_eq!(l.step(ListenerEvent::AddressInUse), ListenerDirective::Fail);
    assert_eq!(l.failure(), Some(BindError::AddressInUse));
    assert_eq!(l.step(ListenerEvent::Bound), ListenerDirective::Fail);
}

#[test]
fn taken_port_is_reclaimed_and_bound_again() {
    let mut l = Listener::new(true);
    assert_eq!(l.step(ListenerEvent::AddressInUse), ListenerDirective::Reclaim);
    assert_eq!(l.step(ListenerEvent::Reclaimed), ListenerDirective::Settle);
    assert_eq!(l.step(ListenerEvent::Settled), ListenerDirective::Bind);
    assert_eq!(l.phase(), ListenerPhase::Rebinding);
    assert_eq!(l.step(ListenerEvent::Bound), ListenerDirective::Accept);
}

#[test]
fn port_that_stays_taken_is_not_reclaimed_twice() {
    let mut l = Listener::new(true);
    l.step(ListenerEvent::AddressInUse);
    l.step(ListenerEvent::Reclaimed);
    l.step(ListenerEvent::Settled);
    assert_eq!(l.step(ListenerEvent::AddressInUse), ListenerDirective::Fail);
    assert_eq!(l.failure(), Some(BindError::StillInUse));
}

#[test]
fn failed_reclaim_is_an_error() {
    let mut l = Listener::new(true);
    l.step(ListenerEvent::AddressInUse);
    assert_eq!(l.step(ListenerEvent::ReclaimFailed), ListenerDirective::Fail);
    assert_eq!(l.failure(), Some(BindError::Reclaim));
}

#[test]
fn other_bind_errors_are_not_recovered() {
    let mut l = Listener::new(true);
    assert_eq!(l.step(ListenerEvent::BindFailed), ListenerDirective::Fail);
    assert_eq!(l.failure(), Some(BindError::Other));

    let mut l = Listener::new(true);
    l.step(ListenerEvent::AddressInUse);
    l.step(ListenerEvent::Reclaimed);
    l.step(ListenerEvent::Settled);
    assert_eq!(l.step(ListenerEvent::BindFailed), ListenerDirective::Fail);
    assert_eq!(l.failure(), Some(BindError::Other));
}

#[test]
fn each_connection_gets_a_session_and_the_loop_goes_on() {
    let mut l = accepting();
    for _ in 0..5 {
        assert_eq!(l.step(ListenerEvent::Accepted), ListenerDirective::Dispatch);
        assert_eq!(l.step(ListenerEvent::Dispatched), ListenerDirective::Accept);
    }
    assert_eq!(l.phase(), ListenerPhase::Accepting);
}

#[test]
fn failed_accept_does_not_stop_the_loop() {
    let mut l = accepting();
    assert_eq!(l.step(ListenerEvent::AcceptFailed), ListenerDirective::Accept);
    assert_eq!(l.step(ListenerEvent::AcceptFailed), ListenerDirective::Accept);
    assert_eq!(l.step(ListenerEvent::Accepted), ListenerDirective::Dispatch);
}

#[test]
fn shutdown_stops_the_loop() {
    let mut l = accepting();
    assert_eq!(l.step(ListenerEvent::ShutdownRaised), ListenerDirective::Stop);
    assert_eq!(l.phase(), ListenerPhase::Stopped);
    assert_eq!(l.step(ListenerEvent::Accepted), ListenerDirective::Stop);
    assert_eq!(l.step(ListenerEvent::Dispatched), ListenerDirective::Stop);
    assert_eq!(l.failure(), None);
}

#[test]
fn accepted_connection_is_served_before_the_loop_stops() {
    let mut l = accepting();
    assert_eq!(l.step(ListenerEvent::Accepted), ListenerDirective::Dispatch);
    assert_eq!(l.step(ListenerEvent::ShutdownRaised), ListenerDirective::Dispatch);
    assert_eq!(l.step(ListenerEvent::Dispatched), ListenerDirective::Stop);
}

#[test]
fn shutdown_before_the_port_is_bound_is_not_waited_for() {
    let mut l = Listener::new(false);
    assert_eq!(l.step(ListenerEvent::ShutdownRaised), ListenerDirective::Bind);
    assert_eq!(l.step(ListenerEvent::Bound), ListenerDirective::Accept);
}
