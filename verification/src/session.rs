//! The server side of one connection, as it runs.
//!
//! A `Session` performs no I/O. The caller does what `directive` says, or,
//! while the directive is `Multiplex`, waits for the first completion among
//! the reads and writes the session is open to, and reports what happened to
//! `step`. The state follows `SessionView::next` exactly.

use crate::command::{is_shutdown_command, parse_command, COMMAND_BUFFER};
use crate::text::trimmed;
use crate::session_laws::law_step_keeps_invariant;
use crate::session_model::{
    Directive, Ending, Event, Ledger, Phase, Process, SessionError, SessionView, Source, Writer,
};
use crate::transcript::{Transcript, TRANSCRIPT_CAPACITY};
use vstd::prelude::*;
use vstd::utf8::{decode_utf8, valid_utf8};

verus! {

/// The state of one accepted connection.
pub struct Session {
    phase: Phase,
    containment: bool,
    command: String,
    process: Process,
    stdout_open: bool,
    stderr_open: bool,
    writer: Writer,
    watching: bool,
    disconnected: bool,
    bound: bool,
    unconfined: bool,
    outcome: Option<Ending>,
    transcript: Transcript,
    ledger: Ghost<Ledger>,
}

impl View for Session {
    type V = SessionView;

    closed spec fn view(&self) -> SessionView {
        SessionView {
            phase: self.phase,
            containment: self.containment,
            command: self.command@,
            process: self.process,
            stdout_open: self.stdout_open,
            stderr_open: self.stderr_open,
            writer: self.writer,
            watching: self.watching,
            disconnected: self.disconnected,
            bound: self.bound,
            unconfined: self.unconfined,
            outcome: self.outcome,
            transcript: self.transcript@,
            ledger: self.ledger@,
        }
    }
}

impl Session {
    /// A session for a connection that has just been accepted. `containment`
    /// says whether the platform can put a process into a kill-propagating
    /// group.
    pub fn new(containment: bool) -> (session: Session)
        ensures
            session@ == SessionView::initial(containment),
            session@.wf(),
    {
        let session = Session {
            phase: Phase::Greeting,
            containment,
            command: String::new(),
            process: Process::Absent,
            stdout_open: false,
            stderr_open: false,
            writer: Writer::Idle,
            watching: false,
            disconnected: false,
            bound: false,
            unconfined: false,
            outcome: None,
            transcript: Transcript::new(TRANSCRIPT_CAPACITY),
            ledger: Ghost(crate::session_model::empty_ledger()),
        };
        proof {
            assert(session@.transcript.chunks =~= Seq::<Seq<u8>>::empty());
            assert(session@.transcript == SessionView::initial(containment).transcript);
            crate::session_laws::law_reachable_states_are_valid(containment, Seq::empty());
        }
        session
    }

    pub fn phase(&self) -> (phase: Phase)
        ensures
            phase == self@.phase,
    {
        self.phase
    }

    /// The command line that was read: the argument for the shell while the
    /// directive is `Spawn`.
    pub fn command(&self) -> (line: &str)
        ensures
            line@ == self@.command,
    {
        self.command.as_str()
    }

    /// How the session ended, once it is closed.
    pub fn outcome(&self) -> (outcome: Option<Ending>)
        ensures
            outcome == self@.outcome,
    {
        self.outcome
    }

    pub fn is_closed(&self) -> (closed: bool)
        ensures
            closed == (self@.phase is Closed),
    {
        matches!(self.phase, Phase::Closed)
    }

    /// Whether the session holds the handle of a containment group.
    pub fn holds_group(&self) -> (held: bool)
        ensures
            held == self@.bound,
    {
        self.bound
    }

    /// Whether the disconnect signal has fired.
    pub fn disconnected(&self) -> (gone: bool)
        ensures
            gone == self@.disconnected,
    {
        self.disconnected
    }

    fn is_active(&self) -> (active: bool)
        ensures
            active == self@.active(),
    {
        matches!(self.phase, Phase::Streaming | Phase::Draining)
    }

    fn is_open(&self, source: Source) -> (open: bool)
        ensures
            open == self@.open(source),
    {
        match source {
            Source::Stdout => self.stdout_open,
            Source::Stderr => self.stderr_open,
        }
    }

    /// What the caller has to do now.
    pub fn directive(&self) -> (directive: Directive)
        ensures
            directive == self@.directive(),
    {
        match self.phase {
            Phase::Greeting => Directive::SendHandshake,
            Phase::AwaitingCommand => Directive::ReadCommand,
            Phase::ShuttingDown => Directive::RaiseShutdown,
            Phase::Spawning => Directive::Spawn,
            Phase::Binding => Directive::Bind,
            Phase::Closed => Directive::Close,
            Phase::Streaming | Phase::Draining => {
                if matches!(self.process, Process::Killing) {
                    Directive::Kill
                } else if matches!(self.writer, Writer::Flushing) {
                    Directive::Flush
                } else {
                    Directive::Multiplex
                }
            },
        }
    }

    /// Whether a chunk read from `source` would be taken now.
    pub fn accepts(&self, source: Source) -> (taken: bool)
        ensures
            taken == self@.accepts(source),
    {
        self.is_active() && self.is_open(source) && self.transcript.has_room()
    }

    /// Whether the connection's read half is to be read.
    pub fn watching_peer(&self) -> (watching: bool)
        ensures
            watching == self@.watching_peer(),
    {
        self.is_active() && self.watching
    }

    /// Whether the exit of the process is waited for.
    pub fn awaiting_exit(&self) -> (waiting: bool)
        ensures
            waiting == self@.awaiting_exit(),
    {
        matches!(self.phase, Phase::Streaming) && matches!(self.process, Process::Running)
    }

    /// The bytes to write to the connection next, if there are any.
    pub fn pending_write(&self) -> (next: Option<&[u8]>)
        requires
            self@.wf(),
        ensures
            next is Some <==> self@.writable(),
            next matches Some(bytes) ==> bytes@ == self@.transcript.front() && bytes@.len() > 0,
    {
        if self.is_active() && matches!(self.writer, Writer::Active) {
            self.transcript.front()
        } else {
            None
        }
    }

    fn writable(&self) -> (writable: bool)
        ensures
            writable == self@.writable(),
    {
        self.is_active() && matches!(self.writer, Writer::Active) && !self.transcript.is_empty()
    }

    fn close(&mut self, how: Ending)
        ensures
            final(self)@ == old(self)@.close(how),
    {
        self.phase = Phase::Closed;
        self.outcome = Some(how);
        self.bound = false;
        self.watching = false;
    }

    fn begin_streaming(&mut self)
        ensures
            final(self)@ == old(self)@.begin_streaming(),
    {
        self.phase = Phase::Streaming;
        self.stdout_open = true;
        self.stderr_open = true;
        self.writer = Writer::Active;
        self.watching = true;
    }

    fn settle(&mut self)
        ensures
            final(self)@ == old(self)@.settle(),
    {
        if self.is_active() && matches!(self.writer, Writer::Active) && !self.stdout_open
            && !self.stderr_open && self.transcript.is_empty() {
            self.writer = Writer::Flushing;
        }
        let dead = matches!(self.process, Process::Exited | Process::Killed);
        let moved = matches!(self.writer, Writer::Finished | Writer::Failed);
        if matches!(self.phase, Phase::Draining) && dead && !self.stdout_open && !self.stderr_open
            && moved {
            let how = if self.unconfined {
                Ending::Failed(SessionError::Containment)
            } else if matches!(self.process, Process::Exited) {
                Ending::Completed
            } else {
                Ending::Interrupted
            };
            self.close(how);
        }
    }

    fn hang_up(&mut self)
        ensures
            final(self)@ == old(self)@.hang_up(),
    {
        self.disconnected = true;
        if matches!(self.phase, Phase::Streaming) && matches!(self.process, Process::Running) {
            self.phase = Phase::Draining;
            self.process = Process::Killing;
            self.ledger = Ghost(Ledger { kills: self.ledger@.kills + 1, ..self.ledger@ });
        }
    }

    fn break_writer(&mut self)
        ensures
            final(self)@ == old(self)@.break_writer(),
    {
        self.writer = Writer::Failed;
        self.stdout_open = false;
        self.stderr_open = false;
        self.transcript.clear();
        self.hang_up();
    }

    fn end_stream(&mut self, source: Source)
        ensures
            final(self)@ == old(self)@.end_stream(source),
    {
        match source {
            Source::Stdout => {
                self.stdout_open = false;
            },
            Source::Stderr => {
                self.stderr_open = false;
            },
        }
    }

    fn take_output(&mut self, source: Source, chunk: Vec<u8>)
        requires
            old(self)@.transcript.wf(),
        ensures
            final(self)@ == old(self)@.take_output(source, chunk@),
    {
        if chunk.len() == 0 {
            if self.is_open(source) {
                self.end_stream(source);
            }
        } else if self.accepts(source) {
            let ghost bytes = chunk@;
            let _ = self.transcript.offer(chunk);
            self.ledger = Ghost(
                Ledger { arrivals: self.ledger@.arrivals.push((source, bytes)), ..self.ledger@ },
            );
        }
    }

    fn take_written(&mut self, n: usize)
        requires
            old(self)@.transcript.wf(),
        ensures
            final(self)@ == old(self)@.take_written(n),
    {
        if !self.writable() {
            return ;
        }
        if n == 0 {
            self.break_writer();
            return ;
        }
        let ghost front = self.transcript@.front();
        let counted = self.transcript.advance(n);
        self.ledger = Ghost(
            Ledger {
                delivered: self.ledger@.delivered + front.take(counted as int),
                ..self.ledger@
            },
        );
    }

    fn step_active(&mut self, event: Event)
        requires
            old(self)@.transcript.wf(),
        ensures
            final(self)@ == old(self)@.next_active(event),
    {
        match event {
            Event::Output(source, chunk) => {
                self.take_output(source, chunk);
            },
            Event::OutputEnded(source) => {
                if self.is_open(source) {
                    self.end_stream(source);
                }
            },
            Event::Written(n) => {
                self.take_written(n);
            },
            Event::WriteFailed => {
                if matches!(self.writer, Writer::Active) {
                    self.break_writer();
                }
            },
            Event::Flushed => {
                if matches!(self.writer, Writer::Flushing) {
                    self.writer = Writer::Finished;
                }
            },
            Event::PeerGone => {
                if self.watching {
                    self.watching = false;
                    self.hang_up();
                }
            },
            Event::ProcessExited => {
                if matches!(self.phase, Phase::Streaming) && matches!(
                    self.process,
                    Process::Running
                ) {
                    self.phase = Phase::Draining;
                    self.process = Process::Exited;
                }
            },
            Event::Killed => {
                if matches!(self.process, Process::Killing) {
                    self.process = Process::Killed;
                }
            },
            _ => {},
        }
        self.settle();
    }

    fn take_command(&mut self, bytes: Vec<u8>)
        ensures
            final(self)@ == old(self)@.take_command(bytes@),
            0 < bytes@.len() <= COMMAND_BUFFER && valid_utf8(bytes@) ==> final(self)@.command
                == trimmed(decode_utf8(bytes@)),
    {
        if bytes.len() == 0 {
            self.close(Ending::PeerSilent);
        } else {
            let line = parse_command(bytes.as_slice());
            if is_shutdown_command(line.as_str()) {
                self.phase = Phase::ShuttingDown;
            } else {
                self.phase = Phase::Spawning;
            }
            self.command = line;
        }
    }

    fn take_spawned(&mut self)
        ensures
            final(self)@ == old(self)@.take_spawned(),
    {
        self.process = Process::Running;
        self.ledger = Ghost(Ledger { spawned: self.ledger@.spawned + 1, ..self.ledger@ });
        if self.containment {
            self.phase = Phase::Binding;
        } else {
            self.begin_streaming();
        }
    }

    fn give_up_binding(&mut self)
        ensures
            final(self)@ == old(self)@.give_up_binding(),
    {
        self.phase = Phase::Draining;
        self.process = Process::Killing;
        self.unconfined = true;
        self.writer = Writer::Finished;
        self.ledger = Ghost(Ledger { kills: self.ledger@.kills + 1, ..self.ledger@ });
    }

    /// Takes in what the caller reports and says what to do next. An event
    /// that the session does not wait for changes nothing.
    ///
    /// Output may be reported only while the session accepts it from that
    /// stream: a caller that reads a stream the session is not open to has
    /// a chunk on its hands that the session will not take.
    pub fn step(&mut self, event: Event) -> (directive: Directive)
        requires
            old(self)@.wf(),
            event matches Event::Output(source, chunk) ==> chunk@.len() == 0 || old(self)@.accepts(
                source,
            ),
        ensures
            final(self)@ == old(self)@.next(event),
            final(self)@.wf(),
            directive == final(self)@.directive(),
            event matches Event::Output(source, chunk) ==> (chunk@.len() > 0
                ==> final(self)@.ledger.arrivals == old(self)@.ledger.arrivals.push(
                (source, chunk@),
            )),
            event matches Event::CommandRead(bytes) ==> (old(self)@.phase is AwaitingCommand && 0
                < bytes@.len() <= COMMAND_BUFFER && valid_utf8(bytes@) ==> final(self)@.command
                == trimmed(decode_utf8(bytes@))),
    {
        proof {
            law_step_keeps_invariant(self@, event);
        }
        match self.phase {
            Phase::Greeting => match event {
                Event::HandshakeSent => {
                    self.phase = Phase::AwaitingCommand;
                },
                Event::HandshakeFailed => {
                    self.close(Ending::Failed(SessionError::Handshake));
                },
                _ => {},
            },
            Phase::AwaitingCommand => match event {
                Event::CommandRead(bytes) => {
                    self.take_command(bytes);
                },
                Event::CommandReadFailed => {
                    self.close(Ending::Failed(SessionError::Read));
                },
                _ => {},
            },
            Phase::ShuttingDown => match event {
                Event::ShutdownRaised => {
                    self.close(Ending::ShutdownRequested);
                },
                _ => {},
            },
            Phase::Spawning => match event {
                Event::Spawned => {
                    self.take_spawned();
                },
                Event::SpawnFailed => {
                    self.close(Ending::Failed(SessionError::Spawn));
                },
                _ => {},
            },
            Phase::Binding => match event {
                Event::Bound => {
                    self.bound = true;
                    self.begin_streaming();
                },
                Event::BindFailed => {
                    self.give_up_binding();
                },
                _ => {},
            },
            Phase::Streaming | Phase::Draining => {
                self.step_active(event);
            },
            Phase::Closed => {},
        }
        self.directive()
    }
}

} // verus!
