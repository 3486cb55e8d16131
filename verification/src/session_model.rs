//! The server side of one connection, as a mathematical state machine.
//!
//! A session greets the peer, reads one command, and either raises the
//! shutdown signal or runs the command and streams its output until the
//! process exits or the peer goes away. `SessionView::next` says how each
//! reported event changes the state; `SessionView::directive` says what the
//! caller has to do in each state.

use crate::command::{command_text, is_shutdown_word};
use crate::transcript::{TranscriptView, TRANSCRIPT_CAPACITY};
use vstd::prelude::*;

verus! {

/// One of the two output streams of the managed process.
#[derive(Clone, Copy, Debug, PartialEq, Eq, Structural)]
pub enum Source {
    Stdout,
    Stderr,
}

/// Where a session stands.
#[derive(Clone, Copy, Debug, PartialEq, Eq, Structural)]
pub enum Phase {
    /// The liveness token has not been sent yet.
    Greeting,
    /// The token is out; the single read for the command is pending.
    AwaitingCommand,
    /// A reserved word arrived; the shutdown signal is to be raised.
    ShuttingDown,
    /// A command arrived; its process is to be spawned.
    Spawning,
    /// The process runs; it is to be bound to its containment group.
    Binding,
    /// Output flows while the process runs and the peer stays.
    Streaming,
    /// The process is gone or going; what is left of its output is moved.
    Draining,
    /// Everything the session held has been released.
    Closed,
}

/// The managed process, as the session knows it.
#[derive(Clone, Copy, Debug, PartialEq, Eq, Structural)]
pub enum Process {
    /// None was spawned.
    Absent,
    Running,
    /// A forced kill has been ordered and not yet carried out.
    Killing,
    Killed,
    /// It exited by itself.
    Exited,
}

/// The loop that moves the transcript to the connection's write half.
#[derive(Clone, Copy, Debug, PartialEq, Eq, Structural)]
pub enum Writer {
    /// Not started.
    Idle,
    Active,
    /// Both streams have ended and the transcript is empty: a last flush is due.
    Flushing,
    Finished,
    /// A write failed; nothing more will be written.
    Failed,
}

/// Why a session failed.
#[derive(Clone, Copy, Debug, PartialEq, Eq, Structural)]
pub enum SessionError {
    /// The liveness token could not be sent.
    Handshake,
    /// The read for the command failed.
    Read,
    /// The process could not be created.
    Spawn,
    /// The process could not be bound to a containment group.
    Containment,
}

/// How a session ended.
#[derive(Clone, Copy, Debug, PartialEq, Eq, Structural)]
pub enum Ending {
    /// The peer closed the connection without sending anything.
    PeerSilent,
    /// The peer sent a reserved word and the shutdown signal was raised.
    ShutdownRequested,
    /// The process exited by itself.
    Completed,
    /// The peer went away and the process was killed.
    Interrupted,
    Failed(SessionError),
}

/// What the caller reports to a session.
#[derive(Debug)]
pub enum Event {
    HandshakeSent,
    HandshakeFailed,
    /// The bytes of the single read; none means the peer closed at once.
    CommandRead(Vec<u8>),
    CommandReadFailed,
    ShutdownRaised,
    Spawned,
    SpawnFailed,
    Bound,
    BindFailed,
    /// A read from a process stream returned these bytes.
    Output(Source, Vec<u8>),
    /// A process stream reached its end or failed.
    OutputEnded(Source),
    /// This many bytes of the pending write were taken by the connection.
    Written(usize),
    WriteFailed,
    Flushed,
    /// The peer sent more bytes after its command.
    PeerData,
    /// The connection's read half reached its end or failed.
    PeerGone,
    ProcessExited,
    Killed,
}

/// What a session asks of the caller.
#[derive(Clone, Copy, Debug, PartialEq, Eq, Structural)]
pub enum Directive {
    /// Write the liveness token and flush.
    SendHandshake,
    /// Read once, up to the size of the command buffer.
    ReadCommand,
    /// Raise the process-wide shutdown signal.
    RaiseShutdown,
    /// Run the session's command line through the shell.
    Spawn,
    /// Put the process into a kill-propagating group.
    Bind,
    /// Wait for the next completion among the I/O the session is open to.
    Multiplex,
    /// Kill the process and whatever it started.
    Kill,
    /// Flush the connection's write half.
    Flush,
    /// Release the connection, the process handle and the group handle.
    Close,
}

/// The chunks a session took, in arrival order, each with its stream.
pub type Arrivals = Seq<(Source, Seq<u8>)>;

/// All bytes of `log`, in arrival order.
pub open spec fn merged(log: Arrivals) -> Seq<u8>
    decreases log.len(),
{
    if log.len() == 0 {
        Seq::empty()
    } else {
        merged(log.drop_last()) + log.last().1
    }
}

/// The bytes of `log` that came from `source`, in arrival order.
pub open spec fn stream_of(log: Arrivals, source: Source) -> Seq<u8>
    decreases log.len(),
{
    if log.len() == 0 {
        Seq::empty()
    } else if log.last().0 == source {
        stream_of(log.drop_last(), source) + log.last().1
    } else {
        stream_of(log.drop_last(), source)
    }
}

/// Whether `whole` is made of `left` and `right` shuffled together: every
/// byte of it comes from one of the two, and each of the two is read off it
/// in its own order.
pub open spec fn interleaves(whole: Seq<u8>, left: Seq<u8>, right: Seq<u8>) -> bool
    decreases whole.len(),
{
    if whole.len() == 0 {
        left.len() == 0 && right.len() == 0
    } else {
        ||| left.len() > 0 && left.last() == whole.last() && interleaves(
            whole.drop_last(),
            left.drop_last(),
            right,
        )
        ||| right.len() > 0 && right.last() == whole.last() && interleaves(
            whole.drop_last(),
            left,
            right.drop_last(),
        )
    }
}

/// What has happened on a session so far. It is bookkeeping for the laws and
/// costs nothing at run time.
pub struct Ledger {
    /// Processes started.
    pub spawned: nat,
    /// Forced kills ordered.
    pub kills: nat,
    /// Chunks taken from the process, in arrival order.
    pub arrivals: Arrivals,
    /// Bytes taken by the connection's write half, in order.
    pub delivered: Seq<u8>,
}

pub open spec fn empty_ledger() -> Ledger {
    Ledger { spawned: 0, kills: 0, arrivals: Seq::empty(), delivered: Seq::empty() }
}

/// The state of a session.
pub struct SessionView {
    pub phase: Phase,
    /// Whether the platform offers kill-propagating process groups.
    pub containment: bool,
    pub command: Seq<char>,
    pub process: Process,
    pub stdout_open: bool,
    pub stderr_open: bool,
    pub writer: Writer,
    /// Whether the connection's read half is still watched.
    pub watching: bool,
    /// The disconnect signal.
    pub disconnected: bool,
    /// Whether the session holds a group handle.
    pub bound: bool,
    /// Whether binding failed, so that the process must not go on.
    pub unconfined: bool,
    pub outcome: Option<Ending>,
    pub transcript: TranscriptView,
    pub ledger: Ledger,
}

impl SessionView {
    pub open spec fn initial(containment: bool) -> SessionView {
        SessionView {
            phase: Phase::Greeting,
            containment,
            command: Seq::empty(),
            process: Process::Absent,
            stdout_open: false,
            stderr_open: false,
            writer: Writer::Idle,
            watching: false,
            disconnected: false,
            bound: false,
            unconfined: false,
            outcome: None,
            transcript: TranscriptView {
                chunks: Seq::empty(),
                sent: 0,
                capacity: TRANSCRIPT_CAPACITY as nat,
            },
            ledger: empty_ledger(),
        }
    }

    pub open spec fn active(self) -> bool {
        self.phase is Streaming || self.phase is Draining
    }

    pub open spec fn open(self, source: Source) -> bool {
        match source {
            Source::Stdout => self.stdout_open,
            Source::Stderr => self.stderr_open,
        }
    }

    pub open spec fn streams_ended(self) -> bool {
        !self.stdout_open && !self.stderr_open
    }

    /// What the caller has to do now.
    pub open spec fn directive(self) -> Directive {
        match self.phase {
            Phase::Greeting => Directive::SendHandshake,
            Phase::AwaitingCommand => Directive::ReadCommand,
            Phase::ShuttingDown => Directive::RaiseShutdown,
            Phase::Spawning => Directive::Spawn,
            Phase::Binding => Directive::Bind,
            Phase::Closed => Directive::Close,
            Phase::Streaming | Phase::Draining => if self.process is Killing {
                Directive::Kill
            } else if self.writer is Flushing {
                Directive::Flush
            } else {
                Directive::Multiplex
            },
        }
    }

    /// Whether a chunk read from `source` would be taken now. While this is
    /// false the caller leaves the stream alone, which holds the process back.
    pub open spec fn accepts(self, source: Source) -> bool {
        self.active() && self.open(source) && self.transcript.has_room()
    }

    /// Whether there are bytes to write to the connection.
    pub open spec fn writable(self) -> bool {
        self.active() && self.writer is Active && !self.transcript.is_empty()
    }

    /// Whether the connection's read half is to be read.
    pub open spec fn watching_peer(self) -> bool {
        self.active() && self.watching
    }

    /// Whether the exit of the process is waited for.
    pub open spec fn awaiting_exit(self) -> bool {
        self.phase is Streaming && self.process is Running
    }

    pub open spec fn close(self, how: Ending) -> SessionView {
        SessionView {
            phase: Phase::Closed,
            outcome: Some(how),
            bound: false,
            watching: false,
            ..self
        }
    }

    pub open spec fn begin_streaming(self) -> SessionView {
        SessionView {
            phase: Phase::Streaming,
            stdout_open: true,
            stderr_open: true,
            writer: Writer::Active,
            watching: true,
            ..self
        }
    }

    /// Whether nothing is left to wait for: the process is dead and the three
    /// loops that move its output have finished.
    pub open spec fn drained(self) -> bool {
        &&& self.process is Exited || self.process is Killed
        &&& self.streams_ended()
        &&& self.writer is Finished || self.writer is Failed
    }

    pub open spec fn verdict(self) -> Ending {
        if self.unconfined {
            Ending::Failed(SessionError::Containment)
        } else if self.process is Exited {
            Ending::Completed
        } else {
            Ending::Interrupted
        }
    }

    /// Moves on what no longer needs an event: the last flush once the
    /// streams have ended and the transcript is empty, and the release once
    /// the race is decided and everything has drained.
    pub open spec fn settle(self) -> SessionView {
        let a = if self.active() && self.writer is Active && self.streams_ended()
            && self.transcript.is_empty() {
            SessionView { writer: Writer::Flushing, ..self }
        } else {
            self
        };
        if a.phase is Draining && a.drained() {
            a.close(a.verdict())
        } else {
            a
        }
    }

    /// The disconnect signal fires. A process that still runs is ordered
    /// killed; one that is already gone is left alone.
    pub open spec fn hang_up(self) -> SessionView {
        if self.phase is Streaming && self.process is Running {
            SessionView {
                phase: Phase::Draining,
                process: Process::Killing,
                disconnected: true,
                ledger: Ledger { kills: self.ledger.kills + 1, ..self.ledger },
                ..self
            }
        } else {
            SessionView { disconnected: true, ..self }
        }
    }

    /// The write half failed: what is queued is dropped, both streams are
    /// given up, and the disconnect signal fires.
    pub open spec fn break_writer(self) -> SessionView {
        SessionView {
            writer: Writer::Failed,
            stdout_open: false,
            stderr_open: false,
            transcript: self.transcript.cleared(),
            ..self
        }.hang_up()
    }

    pub open spec fn end_stream(self, source: Source) -> SessionView {
        match source {
            Source::Stdout => SessionView { stdout_open: false, ..self },
            Source::Stderr => SessionView { stderr_open: false, ..self },
        }
    }

    pub open spec fn take_output(self, source: Source, chunk: Seq<u8>) -> SessionView {
        if chunk.len() == 0 {
            if self.open(source) {
                self.end_stream(source)
            } else {
                self
            }
        } else if self.accepts(source) {
            SessionView {
                transcript: self.transcript.push(chunk),
                ledger: Ledger {
                    arrivals: self.ledger.arrivals.push((source, chunk)),
                    ..self.ledger
                },
                ..self
            }
        } else {
            self
        }
    }

    /// How many of `n` reported bytes count: no more than were offered.
    pub open spec fn counted(self, n: usize) -> nat {
        if n <= self.transcript.front().len() {
            n as nat
        } else {
            self.transcript.front().len()
        }
    }

    pub open spec fn take_written(self, n: usize) -> SessionView {
        if !self.writable() {
            self
        } else if n == 0 {
            self.break_writer()
        } else {
            SessionView {
                transcript: self.transcript.advance(self.counted(n)),
                ledger: Ledger {
                    delivered: self.ledger.delivered + self.transcript.front().take(
                        self.counted(n) as int,
                    ),
                    ..self.ledger
                },
                ..self
            }
        }
    }

    /// The step of a session whose process has been spawned and bound.
    pub open spec fn next_active(self, event: Event) -> SessionView {
        match event {
            Event::Output(source, chunk) => self.take_output(source, chunk@),
            Event::OutputEnded(source) => if self.open(source) {
                self.end_stream(source)
            } else {
                self
            },
            Event::Written(n) => self.take_written(n),
            Event::WriteFailed => if self.writer is Active {
                self.break_writer()
            } else {
                self
            },
            Event::Flushed => if self.writer is Flushing {
                SessionView { writer: Writer::Finished, ..self }
            } else {
                self
            },
            Event::PeerGone => if self.watching {
                SessionView { watching: false, ..self }.hang_up()
            } else {
                self
            },
            Event::ProcessExited => if self.phase is Streaming && self.process is Running {
                SessionView { phase: Phase::Draining, process: Process::Exited, ..self }
            } else {
                self
            },
            Event::Killed => if self.process is Killing {
                SessionView { process: Process::Killed, ..self }
            } else {
                self
            },
            _ => self,
        }.settle()
    }

    /// Whether `event` shows an active session that its peer is gone: the
    /// read half ended, or a write failed or took nothing.
    pub open spec fn loses_peer(self, event: Event) -> bool {
        match event {
            Event::PeerGone => self.watching,
            Event::WriteFailed => self.writer is Active,
            Event::Written(n) => n == 0 && self.writable(),
            _ => false,
        }
    }

    pub open spec fn take_command(self, bytes: Seq<u8>) -> SessionView {
        if bytes.len() == 0 {
            self.close(Ending::PeerSilent)
        } else if is_shutdown_word(command_text(bytes)) {
            SessionView { phase: Phase::ShuttingDown, command: command_text(bytes), ..self }
        } else {
            SessionView { phase: Phase::Spawning, command: command_text(bytes), ..self }
        }
    }

    pub open spec fn take_spawned(self) -> SessionView {
        let s = SessionView {
            process: Process::Running,
            ledger: Ledger { spawned: self.ledger.spawned + 1, ..self.ledger },
            ..self
        };
        if s.containment {
            SessionView { phase: Phase::Binding, ..s }
        } else {
            s.begin_streaming()
        }
    }

    /// Binding failed: the process must not run unconfined, so it is ordered
    /// killed before any of its output is touched.
    pub open spec fn give_up_binding(self) -> SessionView {
        SessionView {
            phase: Phase::Draining,
            process: Process::Killing,
            unconfined: true,
            writer: Writer::Finished,
            ledger: Ledger { kills: self.ledger.kills + 1, ..self.ledger },
            ..self
        }
    }

    /// The state after `event`. An event that the state does not wait for
    /// changes nothing.
    pub open spec fn next(self, event: Event) -> SessionView {
        match self.phase {
            Phase::Greeting => match event {
                Event::HandshakeSent => SessionView { phase: Phase::AwaitingCommand, ..self },
                Event::HandshakeFailed => self.close(Ending::Failed(SessionError::Handshake)),
                _ => self,
            },
            Phase::AwaitingCommand => match event {
                Event::CommandRead(bytes) => self.take_command(bytes@),
                Event::CommandReadFailed => self.close(Ending::Failed(SessionError::Read)),
                _ => self,
            },
            Phase::ShuttingDown => match event {
                Event::ShutdownRaised => self.close(Ending::ShutdownRequested),
                _ => self,
            },
            Phase::Spawning => match event {
                Event::Spawned => self.take_spawned(),
                Event::SpawnFailed => self.close(Ending::Failed(SessionError::Spawn)),
                _ => self,
            },
            Phase::Binding => match event {
                Event::Bound => SessionView { bound: true, ..self }.begin_streaming(),
                Event::BindFailed => self.give_up_binding(),
                _ => self,
            },
            Phase::Streaming | Phase::Draining => self.next_active(event),
            Phase::Closed => self,
        }
    }

    /// The state after a whole run of events.
    pub open spec fn run(self, events: Seq<Event>) -> SessionView
        decreases events.len(),
    {
        if events.len() == 0 {
            self
        } else {
            self.run(events.drop_last()).next(events.last())
        }
    }

    /// Nothing has happened yet beyond the exchange of greeting and command.
    pub open spec fn pristine(self) -> bool {
        &&& self.process is Absent
        &&& !self.stdout_open
        &&& !self.stderr_open
        &&& self.writer is Idle
        &&& !self.watching
        &&& !self.disconnected
        &&& !self.bound
        &&& !self.unconfined
        &&& self.transcript.is_empty()
        &&& self.ledger == empty_ledger()
    }

    /// The book balances: what was delivered and what is still queued make
    /// up what arrived, in the order of arrival. After a failed write nothing
    /// is queued any more and what was delivered is a head of what arrived.
    pub open spec fn balanced(self) -> bool {
        if self.writer is Failed {
            self.ledger.delivered.is_prefix_of(merged(self.ledger.arrivals))
        } else {
            self.ledger.delivered + self.transcript.unsent() == merged(self.ledger.arrivals)
        }
    }

    /// Whether `settle` has nothing left to do.
    pub open spec fn settled(self) -> bool {
        self.settle() == self
    }

    /// The invariant of a session.
    pub open spec fn wf(self) -> bool {
        self.inv() && self.settled()
    }

    /// The invariant of a session, but for `settled`.
    pub open spec fn inv(self) -> bool {
        &&& self.transcript.wf()
        &&& self.transcript.capacity == TRANSCRIPT_CAPACITY
        &&& self.balanced()
        &&& self.ledger.spawned == if self.process is Absent { 0nat } else { 1nat }
        &&& self.ledger.kills == if self.process is Killing || self.process is Killed {
            1nat
        } else {
            0nat
        }
        &&& (self.process is Killing || self.process is Killed) ==> self.disconnected
            || self.unconfined
        &&& !(self.writer is Active) ==> self.streams_ended() && self.transcript.is_empty()
        &&& self.writer is Failed ==> self.disconnected
        &&& self.unconfined ==> self.containment && !self.bound && self.writer is Finished
            && self.ledger.arrivals.len() == 0 && !(self.process is Exited)
        &&& self.bound ==> self.containment
        &&& self.watching ==> self.active()
        &&& match self.phase {
            Phase::Greeting | Phase::AwaitingCommand => self.pristine() && self.outcome is None,
            Phase::ShuttingDown => self.pristine() && self.outcome is None && is_shutdown_word(
                self.command,
            ),
            Phase::Spawning => self.pristine() && self.outcome is None && !is_shutdown_word(
                self.command,
            ),
            Phase::Binding => {
                &&& self.process is Running
                &&& self.containment
                &&& self.writer is Idle
                &&& !self.watching
                &&& !self.disconnected
                &&& !self.bound
                &&& !self.unconfined
                &&& self.ledger.arrivals.len() == 0
                &&& self.ledger.delivered.len() == 0
                &&& self.outcome is None
                &&& !is_shutdown_word(self.command)
            },
            Phase::Streaming => {
                &&& self.process is Running
                &&& !(self.writer is Idle)
                &&& self.watching
                &&& !self.disconnected
                &&& !self.unconfined
                &&& self.bound == self.containment
                &&& self.outcome is None
                &&& !is_shutdown_word(self.command)
            },
            Phase::Draining => {
                &&& !(self.process is Absent) && !(self.process is Running)
                &&& !(self.writer is Idle)
                &&& self.bound == (self.containment && !self.unconfined)
                &&& self.outcome is None
                &&& !is_shutdown_word(self.command)
            },
            Phase::Closed => {
                &&& !self.bound
                &&& match self.outcome {
                    None => false,
                    Some(Ending::PeerSilent) => self.pristine(),
                    Some(Ending::ShutdownRequested) => self.pristine() && is_shutdown_word(
                        self.command,
                    ),
                    Some(Ending::Failed(SessionError::Containment)) => self.process is Killed
                        && self.unconfined,
                    Some(Ending::Failed(_)) => self.pristine(),
                    Some(Ending::Completed) => self.process is Exited && self.drained(),
                    Some(Ending::Interrupted) => self.process is Killed && self.disconnected
                        && self.drained(),
                }
            },
        }
    }
}

} // verus!
