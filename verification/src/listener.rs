//! The listener loop: how the port is bound, with one recovery from a port
//! that is taken, and how connections are accepted until the shutdown
//! signal fires.
//!
//! A `Listener` performs no I/O. The caller does what `directive` says and
//! reports the result to `step`.

use vstd::prelude::*;

verus! {

/// Port a server listens on when none is given.
pub const DEFAULT_SERVER_PORT: u16 = 5330;

/// Milliseconds to wait between reclaiming a port and binding it again.
pub const REBIND_DELAY_MS: u64 = 1000;

/// Where a listener stands.
#[derive(Clone, Copy, Debug, PartialEq, Eq, Structural)]
pub enum ListenerPhase {
    /// The first bind is pending.
    Binding,
    /// The port is taken; whatever holds it is to be terminated.
    Reclaiming,
    /// The port has been reclaimed; the system is given time to free it.
    Settling,
    /// The second and last bind is pending.
    Rebinding,
    Accepting,
    /// A connection was accepted; its session is to be started.
    Dispatching,
    Stopped,
    Failed,
}

/// Why a listener could not bind its port.
#[derive(Clone, Copy, Debug, PartialEq, Eq, Structural)]
pub enum BindError {
    /// The port is taken and the platform has no way to reclaim it.
    AddressInUse,
    /// The port is still taken after it was reclaimed.
    StillInUse,
    /// The holder of the port could not be looked for or terminated.
    Reclaim,
    /// The bind failed for another reason.
    Other,
}

/// What the caller reports to a listener.
#[derive(Clone, Copy, Debug, PartialEq, Eq, Structural)]
pub enum ListenerEvent {
    Bound,
    /// The bind failed because the address is in use.
    AddressInUse,
    /// The bind failed for another reason.
    BindFailed,
    Reclaimed,
    ReclaimFailed,
    Settled,
    Accepted,
    AcceptFailed,
    /// The session for the accepted connection has been started.
    Dispatched,
    /// The shutdown signal has fired.
    ShutdownRaised,
}

/// What a listener asks of the caller.
#[derive(Clone, Copy, Debug, PartialEq, Eq, Structural)]
pub enum ListenerDirective {
    /// Bind the port.
    Bind,
    /// Find what listens on the port and terminate it.
    Reclaim,
    /// Wait `REBIND_DELAY_MS`.
    Settle,
    /// Wait for a connection or for the shutdown signal, whichever is first.
    Accept,
    /// Start a session for the accepted connection and do not wait for it.
    Dispatch,
    /// Stop accepting; sessions that run are left alone.
    Stop,
    /// End with the listener's error.
    Fail,
}

/// The state of a listener.
pub struct ListenerView {
    pub phase: ListenerPhase,
    /// Whether the platform can reclaim a port that is taken.
    pub can_reclaim: bool,
    /// Whether the shutdown signal fired while a session was being started.
    pub stopping: bool,
    pub failure: Option<BindError>,
    /// Binds begun so far, the current one included.
    pub binds: nat,
    /// Connections accepted so far.
    pub accepted: nat,
    /// Sessions started so far.
    pub sessions: nat,
}

impl ListenerView {
    pub open spec fn initial(can_reclaim: bool) -> ListenerView {
        ListenerView {
            phase: ListenerPhase::Binding,
            can_reclaim,
            stopping: false,
            failure: None,
            binds: 1,
            accepted: 0,
            sessions: 0,
        }
    }

    pub open spec fn directive(self) -> ListenerDirective {
        match self.phase {
            ListenerPhase::Binding | ListenerPhase::Rebinding => ListenerDirective::Bind,
            ListenerPhase::Reclaiming => ListenerDirective::Reclaim,
            ListenerPhase::Settling => ListenerDirective::Settle,
            ListenerPhase::Accepting => ListenerDirective::Accept,
            ListenerPhase::Dispatching => ListenerDirective::Dispatch,
            ListenerPhase::Stopped => ListenerDirective::Stop,
            ListenerPhase::Failed => ListenerDirective::Fail,
        }
    }

    pub open spec fn fail(self, why: BindError) -> ListenerView {
        ListenerView { phase: ListenerPhase::Failed, failure: Some(why), ..self }
    }

    /// The state after `event`. An event that the state does not wait for
    /// changes nothing.
    pub open spec fn next(self, event: ListenerEvent) -> ListenerView {
        match self.phase {
            ListenerPhase::Binding => match event {
                ListenerEvent::Bound => ListenerView { phase: ListenerPhase::Accepting, ..self },
                ListenerEvent::AddressInUse => if self.can_reclaim {
                    ListenerView { phase: ListenerPhase::Reclaiming, ..self }
                } else {
                    self.fail(BindError::AddressInUse)
                },
                ListenerEvent::BindFailed => self.fail(BindError::Other),
                _ => self,
            },
            ListenerPhase::Reclaiming => match event {
                ListenerEvent::Reclaimed => ListenerView { phase: ListenerPhase::Settling, ..self },
                ListenerEvent::ReclaimFailed => self.fail(BindError::Reclaim),
                _ => self,
            },
            ListenerPhase::Settling => match event {
                ListenerEvent::Settled => ListenerView {
                    phase: ListenerPhase::Rebinding,
                    binds: self.binds + 1,
                    ..self
                },
                _ => self,
            },
            ListenerPhase::Rebinding => match event {
                ListenerEvent::Bound => ListenerView { phase: ListenerPhase::Accepting, ..self },
                ListenerEvent::AddressInUse => self.fail(BindError::StillInUse),
                ListenerEvent::BindFailed => self.fail(BindError::Other),
                _ => self,
            },
            ListenerPhase::Accepting => match event {
                ListenerEvent::Accepted => ListenerView {
                    phase: ListenerPhase::Dispatching,
                    accepted: self.accepted + 1,
                    ..self
                },
                ListenerEvent::ShutdownRaised => ListenerView {
                    phase: ListenerPhase::Stopped,
                    ..self
                },
                _ => self,
            },
            ListenerPhase::Dispatching => match event {
                ListenerEvent::Dispatched => ListenerView {
                    phase: if self.stopping {
                        ListenerPhase::Stopped
                    } else {
                        ListenerPhase::Accepting
                    },
                    sessions: self.sessions + 1,
                    ..self
                },
                ListenerEvent::ShutdownRaised => ListenerView { stopping: true, ..self },
                _ => self,
            },
            ListenerPhase::Stopped | ListenerPhase::Failed => self,
        }
    }

    /// The state after a whole run of events.
    pub open spec fn run(self, events: Seq<ListenerEvent>) -> ListenerView
        decreases events.len(),
    {
        if events.len() == 0 {
            self
        } else {
            self.run(events.drop_last()).next(events.last())
        }
    }

    /// Whether the port has been bound.
    pub open spec fn listening(self) -> bool {
        self.phase is Accepting || self.phase is Dispatching || self.phase is Stopped
    }

    /// The invariant of a listener.
    pub open spec fn wf(self) -> bool {
        &&& 1 <= self.binds <= 2
        &&& self.binds == 2 ==> self.can_reclaim
        &&& (self.phase is Binding || self.phase is Reclaiming || self.phase is Settling)
            ==> self.binds == 1
        &&& self.phase is Rebinding ==> self.binds == 2
        &&& (self.phase is Reclaiming || self.phase is Settling) ==> self.can_reclaim
        &&& self.phase is Failed <==> self.failure is Some
        &&& self.failure == Some(BindError::AddressInUse) ==> !self.can_reclaim
        &&& self.failure == Some(BindError::StillInUse) ==> self.binds == 2
        &&& self.accepted == self.sessions + if self.phase is Dispatching {
            1nat
        } else {
            0nat
        }
        &&& !self.listening() ==> self.accepted == 0
        &&& self.stopping ==> self.phase is Dispatching || self.phase is Stopped
    }
}

/// Every step keeps the invariant.
pub proof fn law_listener_step_keeps_invariant(v: ListenerView, event: ListenerEvent)
    requires
        v.wf(),
    ensures
        v.next(event).wf(),
{
}

/// A new listener obeys the invariant, and so does every state that any run
/// of events leads to: the port is bound at most twice, a second time only
/// where the platform can reclaim it, and every accepted connection but the
/// one being dispatched has its session.
pub proof fn law_listener_reachable_states_are_valid(
    can_reclaim: bool,
    events: Seq<ListenerEvent>,
)
    ensures
        ListenerView::initial(can_reclaim).run(events).wf(),
        ListenerView::initial(can_reclaim).run(events).can_reclaim == can_reclaim,
        ListenerView::initial(can_reclaim).run(events).binds <= 2,
        !can_reclaim ==> ListenerView::initial(can_reclaim).run(events).binds == 1,
    decreases events.len(),
{
    if events.len() > 0 {
        law_listener_reachable_states_are_valid(can_reclaim, events.drop_last());
        law_listener_step_keeps_invariant(
            ListenerView::initial(can_reclaim).run(events.drop_last()),
            events.last(),
        );
    }
}

/// Without a way to reclaim the port, a port that is taken is reported as
/// the error it is.
pub proof fn law_taken_port_is_reported(v: ListenerView)
    requires
        v.wf(),
        v.phase is Binding,
        !v.can_reclaim,
    ensures
        v.next(ListenerEvent::AddressInUse).directive() is Fail,
        v.next(ListenerEvent::AddressInUse).failure == Some(BindError::AddressInUse),
{
}

/// With a way to reclaim the port, a port that is taken is reclaimed and
/// bound once more, and a second refusal is final.
pub proof fn law_taken_port_is_retried_once(v: ListenerView)
    requires
        v.wf(),
        v.phase is Binding,
        v.can_reclaim,
    ensures
        ({
            let again = v.next(ListenerEvent::AddressInUse).next(ListenerEvent::Reclaimed).next(
                ListenerEvent::Settled,
            );
            &&& v.next(ListenerEvent::AddressInUse).directive() is Reclaim
            &&& again.directive() is Bind
            &&& again.binds == 2
            &&& again.next(ListenerEvent::Bound).directive() is Accept
            &&& again.next(ListenerEvent::AddressInUse).failure == Some(BindError::StillInUse)
        }),
{
}

/// The shutdown signal stops the loop: at once while it waits for a
/// connection, and after the session of a connection that was already
/// accepted has been started.
pub proof fn law_shutdown_stops_accepting(v: ListenerView)
    requires
        v.wf(),
    ensures
        v.phase is Accepting ==> v.next(ListenerEvent::ShutdownRaised).directive() is Stop,
        v.phase is Dispatching ==> {
            let after = v.next(ListenerEvent::ShutdownRaised).next(ListenerEvent::Dispatched);
            after.directive() is Stop && after.sessions == v.sessions + 1
        },
{
}

/// A listener that has stopped accepts nothing and starts nothing, whatever
/// is reported to it.
pub proof fn law_stopped_listener_starts_no_session(v: ListenerView, events: Seq<ListenerEvent>)
    requires
        v.phase is Stopped || v.phase is Failed,
    ensures
        v.run(events) == v,
    decreases events.len(),
{
    if events.len() > 0 {
        law_stopped_listener_starts_no_session(v, events.drop_last());
    }
}

/// Only the shutdown signal ends the accepting: a failed accept leaves the
/// loop as it was, and no event but the signal takes a listening loop
/// anywhere but to its next connection.
pub proof fn law_only_shutdown_stops_accepting(v: ListenerView, event: ListenerEvent)
    requires
        v.wf(),
        v.phase is Accepting || v.phase is Dispatching,
        !(event is ShutdownRaised),
        !v.stopping,
    ensures
        v.next(ListenerEvent::AcceptFailed) == v,
        v.next(event).phase is Accepting || v.next(event).phase is Dispatching,
{
}

/// The state of a listener loop.
pub struct Listener {
    phase: ListenerPhase,
    can_reclaim: bool,
    stopping: bool,
    failure: Option<BindError>,
    binds: u8,
    accepted: Ghost<nat>,
    sessions: Ghost<nat>,
}

impl View for Listener {
    type V = ListenerView;

    closed spec fn view(&self) -> ListenerView {
        ListenerView {
            phase: self.phase,
            can_reclaim: self.can_reclaim,
            stopping: self.stopping,
            failure: self.failure,
            binds: self.binds as nat,
            accepted: self.accepted@,
            sessions: self.sessions@,
        }
    }
}

impl Listener {
    /// A listener about to bind its port. `can_reclaim` says whether the
    /// platform can terminate whatever holds a port.
    pub fn new(can_reclaim: bool) -> (listener: Listener)
        ensures
            listener@ == ListenerView::initial(can_reclaim),
            listener@.wf(),
    {
        Listener {
            phase: ListenerPhase::Binding,
            can_reclaim,
            stopping: false,
            failure: None,
            binds: 1,
            accepted: Ghost(0),
            sessions: Ghost(0),
        }
    }

    pub fn phase(&self) -> (phase: ListenerPhase)
        ensures
            phase == self@.phase,
    {
        self.phase
    }

    /// Why the port could not be bound, once that is so.
    pub fn failure(&self) -> (failure: Option<BindError>)
        ensures
            failure == self@.failure,
    {
        self.failure
    }

    /// What the caller has to do now.
    pub fn directive(&self) -> (directive: ListenerDirective)
        ensures
            directive == self@.directive(),
    {
        match self.phase {
            ListenerPhase::Binding | ListenerPhase::Rebinding => ListenerDirective::Bind,
            ListenerPhase::Reclaiming => ListenerDirective::Reclaim,
            ListenerPhase::Settling => ListenerDirective::Settle,
            ListenerPhase::Accepting => ListenerDirective::Accept,
            ListenerPhase::Dispatching => ListenerDirective::Dispatch,
            ListenerPhase::Stopped => ListenerDirective::Stop,
            ListenerPhase::Failed => ListenerDirective::Fail,
        }
    }

    fn fail(&mut self, why: BindError)
        ensures
            final(self)@ == old(self)@.fail(why),
    {
        self.phase = ListenerPhase::Failed;
        self.failure = Some(why);
    }

    /// Takes in what the caller reports and says what to do next. An event
    /// that the listener does not wait for changes nothing.
    pub fn step(&mut self, event: ListenerEvent) -> (directive: ListenerDirective)
        requires
            old(self)@.wf(),
        ensures
            final(self)@ == old(self)@.next(event),
            final(self)@.wf(),
            directive == final(self)@.directive(),
    {
        proof {
            law_listener_step_keeps_invariant(self@, event);
        }
        match self.phase {
            ListenerPhase::Binding => match event {
                ListenerEvent::Bound => {
                    self.phase = ListenerPhase::Accepting;
                },
                ListenerEvent::AddressInUse => {
                    if self.can_reclaim {
                        self.phase = ListenerPhase::Reclaiming;
                    } else {
                        self.fail(BindError::AddressInUse);
                    }
                },
                ListenerEvent::BindFailed => {
                    self.fail(BindError::Other);
                },
                _ => {},
            },
            ListenerPhase::Reclaiming => match event {
                ListenerEvent::Reclaimed => {
                    self.phase = ListenerPhase::Settling;
                },
                ListenerEvent::ReclaimFailed => {
                    self.fail(BindError::Reclaim);
                },
                _ => {},
            },
            ListenerPhase::Settling => match event {
                ListenerEvent::Settled => {
                    self.phase = ListenerPhase::Rebinding;
                    self.binds = self.binds + 1;
                },
                _ => {},
            },
            ListenerPhase::Rebinding => match event {
                ListenerEvent::Bound => {
                    self.phase = ListenerPhase::Accepting;
                },
                ListenerEvent::AddressInUse => {
                    self.fail(BindError::StillInUse);
                },
                ListenerEvent::BindFailed => {
                    self.fail(BindError::Other);
                },
                _ => {},
            },
            ListenerPhase::Accepting => match event {
                ListenerEvent::Accepted => {
                    self.phase = ListenerPhase::Dispatching;
                    self.accepted = Ghost(self.accepted@ + 1);
                },
                ListenerEvent::ShutdownRaised => {
                    self.phase = ListenerPhase::Stopped;
                },
                _ => {},
            },
            ListenerPhase::Dispatching => match event {
                ListenerEvent::Dispatched => {
                    if self.stopping {
                        self.phase = ListenerPhase::Stopped;
                    } else {
                        self.phase = ListenerPhase::Accepting;
                    }
                    self.sessions = Ghost(self.sessions@ + 1);
                },
                ListenerEvent::ShutdownRaised => {
                    self.stopping = true;
                },
                _ => {},
            },
            ListenerPhase::Stopped | ListenerPhase::Failed => {},
        }
        self.directive()
    }
}

} // verus!
