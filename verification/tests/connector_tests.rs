use winboat_bridge::connector::{
    ClientDirective, ClientError, ClientEvent, ClientPhase, Connector, CONNECT_TIMEOUT_MS,
    HANDSHAKE_TIMEOUT_MS, MAX_ATTEMPTS, SETTLE_DELAY_MS,
};

fn verified() -> Connector {
    let mut c = Connector::new();
    assert_eq!(c.step(ClientEvent::Connected), ClientDirective::ReadHandshake);
    assert_eq!(c.step(ClientEvent::HandshakeRead(b"READY\n".to_vec())), ClientDirective::SendCommand);
    c
}

#[test]
fn client_limits_are_as_documented() {
    assert_eq!(MAX_ATTEMPTS, 2);
    assert_eq!(CONNECT_TIMEOUT_MS, 2000);
    assert_eq!(HANDSHAKE_TIMEOUT_MS, 1000);
    assert_eq!(SETTLE_DELAY_MS, 5000);
}

#[test]
fn connector_begins_with_its_first_attempt() {
    let c = Connector::new();
    assert_eq!(c.phase(), ClientPhase::Connecting);
    assert_eq!(c.directive(), ClientDirective::Connect);
    assert_eq!(c.attempts(), 1);
    assert_eq!(c.failure(), None);
    assert!(c.pending().is_empty());
}

#[test]
fn live_server_is_reached_at_once() {
    let c = verified();
    assert_eq!(c.attempts(), 1);
    assert_eq!(c.phase(), ClientPhase::Sending);
}

#[test]
fn refused_connection_goes_through_the_collaborator() {
    let mut c = Connector::new();
    assert_eq!(c.step(ClientEvent::ConnectFailed), ClientDirective::Bootstrap);
    assert_eq!(c.step(ClientEvent::BootstrapDone), ClientDirective::Settle);
    assert_eq!(c.attempts(), 1);
    assert_eq!(c.step(ClientEvent::Settled), ClientDirective::Connect);
    assert_eq!(c.attempts(), 2);
    assert_eq!(c.step(ClientEvent::Connected), ClientDirective::ReadHandshake);
    assert_eq!(c.step(ClientEvent::HandshakeRead(b"READY\n".to_vec())), ClientDirective::SendCommand);
}

#[test]
fn second_refusal_fails_without_a_third_attempt() {
    let mut c = Connector::new();
    c.step(ClientEvent::ConnectFailed);
    c.step(ClientEvent::BootstrapDone);
    c.step(ClientEvent::Settled);
    assert_eq!(c.step(ClientEvent::ConnectFailed), ClientDirective::Fail);
    assert_eq!(c.failure(), Some(ClientError::Connect));
    assert_eq!(c.attempts(), 2);
    // Nothing that is reported afterwards starts another attempt.
    for event in [ClientEvent::BootstrapDone, ClientEvent::Settled, ClientEvent::Connected] {
        assert_eq!(c.step(event), ClientDirective::Fail);
    }
    assert_eq!(c.attempts(), 2);
}

#[test]
fn short_wrong_and_missing_tokens_count_like_no_server() {
    let bad: Vec<ClientEvent> = vec![
        ClientEvent::HandshakeRead(b"READY".to_vec()),
        ClientEvent::HandshakeRead(Vec::new()),
        ClientEvent::HandshakeRead(b"ready\n".to_vec()),
        ClientEvent::HandshakeRead(b"HELLO!".to_vec()),
        ClientEvent::HandshakeRead(b"READY\n!".to_vec()),
        ClientEvent::HandshakeMissed,
    ];
    for event in bad {
        let mut c = Connector::new();
        c.step(ClientEvent::Connected);
        assert_eq!(c.step(event), ClientDirective::Bootstrap);
        assert_eq!(c.attempts(), 1);
        assert_eq!(c.failure(), None);
    }
}

#[test]
fn budget_is_shared_by_both_kinds_of_failure() {
    let mut c = Connector::new();
    c.step(ClientEvent::ConnectFailed);
    c.step(ClientEvent::BootstrapDone);
    c.step(ClientEvent::Settled);
    c.step(ClientEvent::Connected);
    assert_eq!(c.step(ClientEvent::HandshakeMissed), ClientDirective::Fail);
    assert_eq!(c.failure(), Some(ClientError::Handshake));

    let mut c = Connector::new();
    c.step(ClientEvent::Connected);
    c.step(ClientEvent::HandshakeRead(b"nope".to_vec()));
    c.step(ClientEvent::BootstrapDone);
    c.step(ClientEvent::Settled);
    assert_eq!(c.step(ClientEvent::ConnectFailed), ClientDirective::Fail);
    assert_eq!(c.failure(), Some(ClientError::Connect));
    assert_eq!(c.attempts(), 2);
}

#[test]
fn collaborator_that_cannot_run_is_fatal() {
    let mut c = Connector::new();
    c.step(ClientEvent::ConnectFailed);
    assert_eq!(c.step(ClientEvent::BootstrapFailed), ClientDirective::Fail);
    assert_eq!(c.failure(), Some(ClientError::Bootstrap));
    assert_eq!(c.attempts(), 1);
    assert_eq!(c.step(ClientEvent::Settled), ClientDirective::Fail);
}

#[test]
fn reply_is_relayed_chunk_by_chunk() {
    let mut c = verified();
    assert_eq!(c.step(ClientEvent::CommandSent), ClientDirective::Receive);
    assert_eq!(c.step(ClientEvent::Chunk(b"hello\n".to_vec())), ClientDirective::Print);
    assert_eq!(c.pending(), b"hello\n");
    assert_eq!(c.step(ClientEvent::Printed), ClientDirective::Receive);
    assert!(c.pending().is_empty());
    assert_eq!(c.step(ClientEvent::Chunk(b"x".to_vec())), ClientDirective::Print);
    assert_eq!(c.pending(), b"x");
    assert_eq!(c.step(ClientEvent::Printed), ClientDirective::Receive);
    assert_eq!(c.step(ClientEvent::Chunk(Vec::new())), ClientDirective::Finish);
    assert_eq!(c.phase(), ClientPhase::Done);
    assert_eq!(c.failure(), None);
}

#[test]
fn no_chunk_is_taken_while_one_is_pending() {
    let mut c = verified();
    c.step(ClientEvent::CommandSent);
    c.step(ClientEvent::Chunk(b"first".to_vec()));
    assert_eq!(c.step(ClientEvent::Chunk(b"second".to_vec())), ClientDirective::Print);
    assert_eq!(c.pending(), b"first");
}

#[test]
fn failures_after_the_handshake_are_told_apart() {
    let mut c = verified();
    assert_eq!(c.step(ClientEvent::SendFailed), ClientDirective::Fail);
    assert_eq!(c.failure(), Some(ClientError::Send));

    let mut c = verified();
    c.step(ClientEvent::CommandSent);
    assert_eq!(c.step(ClientEvent::ReadFailed), ClientDirective::Fail);
    assert_eq!(c.failure(), Some(ClientError::Receive));

    let mut c = verified();
    c.step(ClientEvent::CommandSent);
    c.step(ClientEvent::Chunk(b"out".to_vec()));
    assert_eq!(c.step(ClientEvent::PrintFailed), ClientDirective::Fail);
    assert_eq!(c.failure(), Some(ClientError::Output));
}

#[test]
fn events_out_of_turn_change_nothing() {
    let mut c = Connector::new();
    for event in [
        ClientEvent::HandshakeRead(b"READY\n".to_vec()),
        ClientEvent::Settled,
        ClientEvent::BootstrapDone,
        ClientEvent::CommandSent,
        ClientEvent::Chunk(b"x".to_vec()),
        ClientEvent::Printed,
    ] {
        assert_eq!(c.step(event), ClientDirective::Connect);
    }
    assert_eq!(c.attempts(), 1);
    assert_eq!(c.phase(), ClientPhase::Connecting);
}

#[test]
fn finished_connector_ignores_everything() {
    let mut c = verified();
    c.step(ClientEvent::CommandSent);
    c.step(ClientEvent::Chunk(Vec::new()));
    for event in [ClientEvent::Chunk(b"late".to_vec()), ClientEvent::ReadFailed, ClientEvent::Connected] {
        assert_eq!(c.step(event), ClientDirective::Finish);
    }
    assert_eq!(c.failure(), None);
}
