//! The client side: how a verified connection is established within a fixed
//! budget of attempts, and how the reply is relayed.
//!
//! A `Connector` performs no I/O. The caller does what `directive` says and
//! reports the result to `step`.

use crate::handshake::{handshake_token, verify_handshake};
use vstd::prelude::*;

verus! {

/// Connection attempts per invocation, shared by failures to connect and
/// failures of the handshake.
pub const MAX_ATTEMPTS: u32 = 2;

/// Milliseconds allowed for opening the connection.
pub const CONNECT_TIMEOUT_MS: u64 = 2000;

/// Milliseconds allowed for the liveness token to arrive.
pub const HANDSHAKE_TIMEOUT_MS: u64 = 1000;

/// Milliseconds to wait after the bootstrap collaborator has run.
pub const SETTLE_DELAY_MS: u64 = 5000;

/// Where a connector stands.
#[derive(Clone, Copy, Debug, PartialEq, Eq, Structural)]
pub enum ClientPhase {
    Connecting,
    Verifying,
    Bootstrapping,
    Settling,
    /// Connected and verified: the command is to be sent.
    Sending,
    Receiving,
    /// A chunk has arrived and is to be written out.
    Printing,
    Done,
    Failed,
}

/// Why a client invocation failed.
#[derive(Clone, Copy, Debug, PartialEq, Eq, Structural)]
pub enum ClientError {
    /// No connection could be opened: nothing listens, or nothing answered in time.
    Connect,
    /// A connection opened but the liveness token did not arrive: the sign of
    /// a forwarded port with no live server behind it.
    Handshake,
    /// The bootstrap collaborator could not be run.
    Bootstrap,
    /// The command could not be sent.
    Send,
    /// Reading the reply failed.
    Receive,
    /// Writing the reply to the local output failed.
    Output,
}

/// What the caller reports to a connector.
#[derive(Debug)]
pub enum ClientEvent {
    Connected,
    /// The connection was refused or timed out.
    ConnectFailed,
    /// What arrived of the liveness token within the time allowed.
    HandshakeRead(Vec<u8>),
    /// The read for the token failed or timed out.
    HandshakeMissed,
    BootstrapDone,
    BootstrapFailed,
    Settled,
    CommandSent,
    SendFailed,
    /// The bytes of one read of the reply; none means the server closed.
    Chunk(Vec<u8>),
    ReadFailed,
    Printed,
    PrintFailed,
}

/// What a connector asks of the caller.
#[derive(Clone, Copy, Debug, PartialEq, Eq, Structural)]
pub enum ClientDirective {
    /// Open a connection, within `CONNECT_TIMEOUT_MS`.
    Connect,
    /// Read exactly `HANDSHAKE_LEN` bytes, within `HANDSHAKE_TIMEOUT_MS`.
    ReadHandshake,
    /// Ask the collaborator to start the server.
    Bootstrap,
    /// Wait `SETTLE_DELAY_MS`.
    Settle,
    /// Write the command line as it is, once.
    SendCommand,
    /// Read the next chunk of the reply.
    Receive,
    /// Write the pending chunk to the local output and flush.
    Print,
    /// End with success.
    Finish,
    /// End with the connector's error.
    Fail,
}

/// The state of a connector.
pub struct ConnectorView {
    pub phase: ClientPhase,
    /// Connection attempts begun so far, the current one included.
    pub attempts: nat,
    pub failure: Option<ClientError>,
    /// The chunk that is to be written out.
    pub pending: Seq<u8>,
    /// All bytes of the reply read so far.
    pub received: Seq<u8>,
    /// All bytes of the reply written out so far.
    pub relayed: Seq<u8>,
}

impl ConnectorView {
    pub open spec fn initial() -> ConnectorView {
        ConnectorView {
            phase: ClientPhase::Connecting,
            attempts: 1,
            failure: None,
            pending: Seq::empty(),
            received: Seq::empty(),
            relayed: Seq::empty(),
        }
    }

    pub open spec fn directive(self) -> ClientDirective {
        match self.phase {
            ClientPhase::Connecting => ClientDirective::Connect,
            ClientPhase::Verifying => ClientDirective::ReadHandshake,
            ClientPhase::Bootstrapping => ClientDirective::Bootstrap,
            ClientPhase::Settling => ClientDirective::Settle,
            ClientPhase::Sending => ClientDirective::SendCommand,
            ClientPhase::Receiving => ClientDirective::Receive,
            ClientPhase::Printing => ClientDirective::Print,
            ClientPhase::Done => ClientDirective::Finish,
            ClientPhase::Failed => ClientDirective::Fail,
        }
    }

    pub open spec fn fail(self, why: ClientError) -> ConnectorView {
        ConnectorView { phase: ClientPhase::Failed, failure: Some(why), ..self }
    }

    /// An attempt has failed for the reason `why`: the collaborator is tried
    /// if the budget allows another attempt, and the invocation fails if not.
    pub open spec fn retry(self, why: ClientError) -> ConnectorView {
        if self.attempts >= MAX_ATTEMPTS {
            self.fail(why)
        } else {
            ConnectorView { phase: ClientPhase::Bootstrapping, ..self }
        }
    }

    /// The state after `event`. An event that the state does not wait for
    /// changes nothing.
    pub open spec fn next(self, event: ClientEvent) -> ConnectorView {
        match self.phase {
            ClientPhase::Connecting => match event {
                ClientEvent::Connected => ConnectorView { phase: ClientPhase::Verifying, ..self },
                ClientEvent::ConnectFailed => self.retry(ClientError::Connect),
                _ => self,
            },
            ClientPhase::Verifying => match event {
                ClientEvent::HandshakeRead(bytes) => if bytes@ == handshake_token() {
                    ConnectorView { phase: ClientPhase::Sending, ..self }
                } else {
                    self.retry(ClientError::Handshake)
                },
                ClientEvent::HandshakeMissed => self.retry(ClientError::Handshake),
                _ => self,
            },
            ClientPhase::Bootstrapping => match event {
                ClientEvent::BootstrapDone => ConnectorView { phase: ClientPhase::Settling, ..self },
                ClientEvent::BootstrapFailed => self.fail(ClientError::Bootstrap),
                _ => self,
            },
            ClientPhase::Settling => match event {
                ClientEvent::Settled => ConnectorView {
                    phase: ClientPhase::Connecting,
                    attempts: self.attempts + 1,
                    ..self
                },
                _ => self,
            },
            ClientPhase::Sending => match event {
                ClientEvent::CommandSent => ConnectorView { phase: ClientPhase::Receiving, ..self },
                ClientEvent::SendFailed => self.fail(ClientError::Send),
                _ => self,
            },
            ClientPhase::Receiving => match event {
                ClientEvent::Chunk(bytes) => if bytes@.len() == 0 {
                    ConnectorView { phase: ClientPhase::Done, ..self }
                } else {
                    ConnectorView {
                        phase: ClientPhase::Printing,
                        pending: bytes@,
                        received: self.received + bytes@,
                        ..self
                    }
                },
                ClientEvent::ReadFailed => self.fail(ClientError::Receive),
                _ => self,
            },
            ClientPhase::Printing => match event {
                ClientEvent::Printed => ConnectorView {
                    phase: ClientPhase::Receiving,
                    pending: Seq::empty(),
                    relayed: self.relayed + self.pending,
                    ..self
                },
                ClientEvent::PrintFailed => self.fail(ClientError::Output),
                _ => self,
            },
            ClientPhase::Done | ClientPhase::Failed => self,
        }
    }

    /// The state after a whole run of events.
    pub open spec fn run(self, events: Seq<ClientEvent>) -> ConnectorView
        decreases events.len(),
    {
        if events.len() == 0 {
            self
        } else {
            self.run(events.drop_last()).next(events.last())
        }
    }

    /// Whether the connection has been verified.
    pub open spec fn verified(self) -> bool {
        self.phase is Sending || self.phase is Receiving || self.phase is Printing
            || self.phase is Done || (self.phase is Failed && (self.failure == Some(
            ClientError::Send,
        ) || self.failure == Some(ClientError::Receive) || self.failure == Some(
            ClientError::Output,
        )))
    }

    /// The invariant of a connector.
    pub open spec fn wf(self) -> bool {
        &&& 1 <= self.attempts <= MAX_ATTEMPTS
        &&& self.relayed + self.pending == self.received
        &&& self.phase is Printing ==> self.pending.len() > 0
        &&& !(self.phase is Printing || self.phase is Failed) ==> self.pending.len() == 0
        &&& self.phase is Failed <==> self.failure is Some
        &&& (self.phase is Bootstrapping || self.phase is Settling) ==> self.attempts
            < MAX_ATTEMPTS
        &&& (self.failure == Some(ClientError::Connect) || self.failure == Some(
            ClientError::Handshake,
        )) ==> self.attempts == MAX_ATTEMPTS
        &&& !self.verified() ==> self.received.len() == 0
    }
}

/// Every step keeps the invariant.
pub proof fn law_connector_step_keeps_invariant(v: ConnectorView, event: ClientEvent)
    requires
        v.wf(),
    ensures
        v.next(event).wf(),
{
    if v.phase is Receiving {
        assert(v.relayed + v.pending =~= v.relayed);
    }
    if v.phase is Printing {
        assert(v.relayed + v.pending + Seq::<u8>::empty() =~= v.relayed + v.pending);
    }
}

/// A new connector obeys the invariant, and so does every state that any run
/// of events leads to. In particular no run makes more than `MAX_ATTEMPTS`
/// connection attempts, and a run that fails for want of a server has made
/// exactly that many.
pub proof fn law_attempt_budget(events: Seq<ClientEvent>)
    ensures
        ConnectorView::initial().run(events).wf(),
        ConnectorView::initial().run(events).attempts <= MAX_ATTEMPTS,
        (ConnectorView::initial().run(events).failure == Some(ClientError::Connect)
            || ConnectorView::initial().run(events).failure == Some(ClientError::Handshake))
            ==> ConnectorView::initial().run(events).attempts == MAX_ATTEMPTS,
    decreases events.len(),
{
    let start = ConnectorView::initial();
    assert(start.relayed + start.pending =~= start.received);
    if events.len() > 0 {
        law_attempt_budget(events.drop_last());
        law_connector_step_keeps_invariant(start.run(events.drop_last()), events.last());
    }
}

/// A new attempt begins by one step only, the end of the settle delay, and
/// only while the budget is not used up.
pub proof fn law_attempts_grow_only_after_settling(v: ConnectorView, event: ClientEvent)
    requires
        v.wf(),
    ensures
        v.next(event).attempts == v.attempts + if v.phase is Settling && event is Settled {
            1nat
        } else {
            0nat
        },
        v.next(event).attempts > v.attempts ==> v.attempts < MAX_ATTEMPTS,
{
}

/// For the question whether to try again, a handshake that is short, wrong
/// or missing counts exactly like a connection that could not be opened: the
/// two lead to the same phase at the same count of attempts, and differ only
/// in the error that a final failure reports.
pub proof fn law_bad_handshake_is_no_server(v: ConnectorView, event: ClientEvent)
    requires
        v.wf(),
        v.phase is Verifying,
        event is HandshakeMissed || (event matches ClientEvent::HandshakeRead(bytes) && bytes@
            != handshake_token()),
    ensures
        ({
            let refused = ConnectorView { phase: ClientPhase::Connecting, ..v }.next(
                ClientEvent::ConnectFailed,
            );
            let unanswered = v.next(event);
            &&& unanswered.phase == refused.phase
            &&& unanswered.attempts == refused.attempts
            &&& unanswered.phase is Bootstrapping || unanswered.phase is Failed
            &&& unanswered.phase is Failed ==> unanswered.failure == Some(ClientError::Handshake)
                && refused.failure == Some(ClientError::Connect)
            &&& unanswered.phase is Bootstrapping <==> v.attempts < MAX_ATTEMPTS
        }),
{
}

/// Only the exact token verifies a connection.
pub proof fn law_only_the_token_verifies(v: ConnectorView, event: ClientEvent)
    requires
        v.wf(),
        !v.verified(),
    ensures
        v.next(event).verified() <==> v.phase is Verifying && (event matches ClientEvent::HandshakeRead(
            bytes,
        ) && bytes@ == handshake_token()),
{
}

/// A collaborator that cannot be run ends the invocation at once, whatever
/// is left of the budget.
pub proof fn law_bootstrap_failure_is_fatal(v: ConnectorView)
    requires
        v.wf(),
        v.phase is Bootstrapping,
    ensures
        v.next(ClientEvent::BootstrapFailed).phase is Failed,
        v.next(ClientEvent::BootstrapFailed).failure == Some(ClientError::Bootstrap),
        v.next(ClientEvent::BootstrapDone).directive() is Settle,
{
}

/// The command is sent once: after it has gone out the connector never asks
/// for it to be sent again, and it never asks for it before the connection
/// is verified.
pub proof fn law_command_is_sent_once(v: ConnectorView, events: Seq<ClientEvent>)
    requires
        v.wf(),
        v.phase is Receiving || v.phase is Printing || v.phase is Done || v.phase is Failed,
    ensures
        !(v.run(events).directive() is SendCommand),
        !(v.run(events).directive() is Connect),
        v.run(events).attempts == v.attempts,
        v.run(events).phase is Receiving || v.run(events).phase is Printing || v.run(
            events,
        ).phase is Done || v.run(events).phase is Failed,
    decreases events.len(),
{
    if events.len() > 0 {
        law_command_is_sent_once(v, events.drop_last());
    }
}

/// What has been written out is a head of what has been read, and a run that
/// ends with success has written out all of it.
pub proof fn law_reply_is_relayed_whole(v: ConnectorView)
    requires
        v.wf(),
    ensures
        v.relayed.is_prefix_of(v.received),
        v.phase is Done ==> v.relayed == v.received,
{
    if v.phase is Done {
        assert(v.relayed + v.pending =~= v.relayed);
    }
}

/// A connector that has finished or failed ignores whatever is reported.
pub proof fn law_connector_end_is_final(v: ConnectorView, event: ClientEvent)
    requires
        v.phase is Done || v.phase is Failed,
    ensures
        v.next(event) == v,
{
}

/// The state of one client invocation.
pub struct Connector {
    phase: ClientPhase,
    attempts: u32,
    failure: Option<ClientError>,
    pending: Vec<u8>,
    received: Ghost<Seq<u8>>,
    relayed: Ghost<Seq<u8>>,
}

impl View for Connector {
    type V = ConnectorView;

    closed spec fn view(&self) -> ConnectorView {
        ConnectorView {
            phase: self.phase,
            attempts: self.attempts as nat,
            failure: self.failure,
            pending: self.pending@,
            received: self.received@,
            relayed: self.relayed@,
        }
    }
}

impl Connector {
    /// A connector about to make its first attempt.
    pub fn new() -> (connector: Connector)
        ensures
            connector@ == ConnectorView::initial(),
            connector@.wf(),
    {
        let connector = Connector {
            phase: ClientPhase::Connecting,
            attempts: 1,
            failure: None,
            pending: Vec::new(),
            received: Ghost(Seq::empty()),
            relayed: Ghost(Seq::empty()),
        };
        proof {
            law_attempt_budget(Seq::empty());
        }
        connector
    }

    pub fn phase(&self) -> (phase: ClientPhase)
        ensures
            phase == self@.phase,
    {
        self.phase
    }

    /// Connection attempts begun so far.
    pub fn attempts(&self) -> (attempts: u32)
        ensures
            attempts == self@.attempts,
    {
        self.attempts
    }

    /// Why the invocation failed, once it has.
    pub fn failure(&self) -> (failure: Option<ClientError>)
        ensures
            failure == self@.failure,
    {
        self.failure
    }

    /// The chunk to write out while the directive is `Print`.
    pub fn pending(&self) -> (chunk: &[u8])
        ensures
            chunk@ == self@.pending,
    {
        self.pending.as_slice()
    }

    /// What the caller has to do now.
    pub fn directive(&self) -> (directive: ClientDirective)
        ensures
            directive == self@.directive(),
    {
        match self.phase {
            ClientPhase::Connecting => ClientDirective::Connect,
            ClientPhase::Verifying => ClientDirective::ReadHandshake,
            ClientPhase::Bootstrapping => ClientDirective::Bootstrap,
            ClientPhase::Settling => ClientDirective::Settle,
            ClientPhase::Sending => ClientDirective::SendCommand,
            ClientPhase::Receiving => ClientDirective::Receive,
            ClientPhase::Printing => ClientDirective::Print,
            ClientPhase::Done => ClientDirective::Finish,
            ClientPhase::Failed => ClientDirective::Fail,
        }
    }

    fn fail(&mut self, why: ClientError)
        ensures
            final(self)@ == old(self)@.fail(why),
    {
        self.phase = ClientPhase::Failed;
        self.failure = Some(why);
    }

    fn retry(&mut self, why: ClientError)
        ensures
            final(self)@ == old(self)@.retry(why),
    {
        if self.attempts >= MAX_ATTEMPTS {
            self.fail(why);
        } else {
            self.phase = ClientPhase::Bootstrapping;
        }
    }

    /// Takes in what the caller reports and says what to do next. An event
    /// that the connector does not wait for changes nothing.
    pub fn step(&mut self, event: ClientEvent) -> (directive: ClientDirective)
        requires
            old(self)@.wf(),
        ensures
            final(self)@ == old(self)@.next(event),
            final(self)@.wf(),
            directive == final(self)@.directive(),
    {
        proof {
            law_connector_step_keeps_invariant(self@, event);
        }
        match self.phase {
            ClientPhase::Connecting => match event {
                ClientEvent::Connected => {
                    self.phase = ClientPhase::Verifying;
                },
                ClientEvent::ConnectFailed => {
                    self.retry(ClientError::Connect);
                },
                _ => {},
            },
            ClientPhase::Verifying => match event {
                ClientEvent::HandshakeRead(bytes) => {
                    if verify_handshake(bytes.as_slice()) {
                        self.phase = ClientPhase::Sending;
                    } else {
                        self.retry(ClientError::Handshake);
                    }
                },
                ClientEvent::HandshakeMissed => {
                    self.retry(ClientError::Handshake);
                },
                _ => {},
            },
            ClientPhase::Bootstrapping => match event {
                ClientEvent::BootstrapDone => {
                    self.phase = ClientPhase::Settling;
                },
                ClientEvent::BootstrapFailed => {
                    self.fail(ClientError::Bootstrap);
                },
                _ => {},
            },
            ClientPhase::Settling => match event {
                ClientEvent::Settled => {
                    self.phase = ClientPhase::Connecting;
                    self.attempts = self.attempts + 1;
                },
                _ => {},
            },
            ClientPhase::Sending => match event {
                ClientEvent::CommandSent => {
                    self.phase = ClientPhase::Receiving;
                },
                ClientEvent::SendFailed => {
                    self.fail(ClientError::Send);
                },
                _ => {},
            },
            ClientPhase::Receiving => match event {
                ClientEvent::Chunk(bytes) => {
                    if bytes.len() == 0 {
                        self.phase = ClientPhase::Done;
                    } else {
                        self.phase = ClientPhase::Printing;
                        self.received = Ghost(self.received@ + bytes@);
                        self.pending = bytes;
                    }
                },
                ClientEvent::ReadFailed => {
                    self.fail(ClientError::Receive);
                },
                _ => {},
            },
            ClientPhase::Printing => match event {
                ClientEvent::Printed => {
                    self.phase = ClientPhase::Receiving;
                    self.relayed = Ghost(self.relayed@ + self.pending@);
                    self.pending = Vec::new();
                },
                ClientEvent::PrintFailed => {
                    self.fail(ClientError::Output);
                },
                _ => {},
            },
            ClientPhase::Done | ClientPhase::Failed => {},
        }
        self.directive()
    }
}

} // verus!
