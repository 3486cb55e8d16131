//! The bootstrap collaborator: a remote-shell client that is asked to start
//! the server on the far side.
//!
//! This module holds what is said to the collaborator and how its run is
//! judged. Running it is the caller's part: a `Bootstrap` performs no I/O.

use vstd::prelude::*;
use vstd::string::StringExecFns;

verus! {

/// Milliseconds the collaborator is given to finish.
pub const BOOTSTRAP_TIMEOUT_MS: u64 = 15000;

/// Where the server is to be started and how to get there.
pub struct BootstrapConfig {
    /// Path of the server binary on the far side.
    pub exe_path: String,
    /// Where the far side keeps the server's output.
    pub log_path: String,
    /// Where the far side keeps the server's error output.
    pub err_path: String,
    pub host: String,
    pub port: String,
    pub user: String,
    pub password: String,
}

/// The command that starts the server detached and hidden, with its two
/// output streams redirected. The paths are put in as they are.
pub open spec fn start_command_text(exe: Seq<char>, log: Seq<char>, err: Seq<char>) -> Seq<char> {
    "Start-Process -FilePath '"@ + exe
        + "' -ArgumentList '--server' -WindowStyle Hidden -RedirectStandardOutput '"@ + log
        + "' -RedirectStandardError '"@ + err + "'"@
}

/// What is written to the collaborator's input: the start command wrapped
/// for the remote shell, a line end to run it, and a line that leaves the
/// remote shell.
pub open spec fn script_text(exe: Seq<char>, log: Seq<char>, err: Seq<char>) -> Seq<char> {
    "powershell -Command \""@ + start_command_text(exe, log, err) + "\"\nexit\n"@
}

/// The command that starts the server on the far side.
pub fn start_command(config: &BootstrapConfig) -> (text: String)
    ensures
        text@ == start_command_text(config.exe_path@, config.log_path@, config.err_path@),
{
    let mut text = String::from_str("Start-Process -FilePath '");
    text.append(config.exe_path.as_str());
    text.append("' -ArgumentList '--server' -WindowStyle Hidden -RedirectStandardOutput '");
    text.append(config.log_path.as_str());
    text.append("' -RedirectStandardError '");
    text.append(config.err_path.as_str());
    text.append("'");
    text
}

/// The text to write to the collaborator's input.
pub fn script(config: &BootstrapConfig) -> (text: String)
    ensures
        text@ == script_text(config.exe_path@, config.log_path@, config.err_path@),
{
    let mut text = String::from_str("powershell -Command \"");
    let command = start_command(config);
    text.append(command.as_str());
    text.append("\"\nexit\n");
    text
}

/// The name of the collaborator's program.
pub fn collaborator_program() -> (name: &'static str)
    ensures
        name@ == "evil-winrm"@,
{
    "evil-winrm"
}

/// The arguments for the collaborator: host, port, user and password, each
/// after its flag.
pub fn collaborator_arguments(config: &BootstrapConfig) -> (arguments: Vec<String>)
    ensures
        arguments@.len() == 8,
        arguments@[0]@ == "-i"@,
        arguments@[1]@ == config.host@,
        arguments@[2]@ == "-P"@,
        arguments@[3]@ == config.port@,
        arguments@[4]@ == "-u"@,
        arguments@[5]@ == config.user@,
        arguments@[6]@ == "-p"@,
        arguments@[7]@ == config.password@,
{
    let mut arguments: Vec<String> = Vec::new();
    arguments.push(String::from_str("-i"));
    arguments.push(config.host.clone());
    arguments.push(String::from_str("-P"));
    arguments.push(config.port.clone());
    arguments.push(String::from_str("-u"));
    arguments.push(config.user.clone());
    arguments.push(String::from_str("-p"));
    arguments.push(config.password.clone());
    arguments
}

/// Where a run of the collaborator stands.
#[derive(Clone, Copy, Debug, PartialEq, Eq, Structural)]
pub enum BootstrapPhase {
    /// The collaborator is to be started.
    Launching,
    /// The script is to be written to its input, and the input closed.
    Feeding,
    /// Its exit is waited for.
    Waiting,
    /// It took too long and is to be killed.
    Reaping,
    Done,
    Failed,
}

/// How a run of the collaborator that counts as success ended.
#[derive(Clone, Copy, Debug, PartialEq, Eq, Structural)]
pub enum BootstrapReport {
    /// It exited with success.
    Started,
    /// It exited with an error status. The far side may still have started.
    Unconfirmed,
    /// It did not exit in time and was killed. The far side is assumed to
    /// have started.
    Assumed,
}

/// Why the collaborator could not be run.
#[derive(Clone, Copy, Debug, PartialEq, Eq, Structural)]
pub enum BootstrapError {
    /// It could not be started.
    Launch,
    /// The script could not be written to it.
    Feed,
    /// Waiting for it failed.
    Wait,
}

/// What the caller reports to a bootstrap run.
#[derive(Clone, Copy, Debug, PartialEq, Eq, Structural)]
pub enum BootstrapEvent {
    Launched,
    LaunchFailed,
    Fed,
    FeedFailed,
    /// The collaborator exited; the flag says whether with success.
    Exited(bool),
    WaitFailed,
    TimedOut,
    /// The kill has been carried out, or has failed: either way it is over.
    Reaped,
}

/// What a bootstrap run asks of the caller.
#[derive(Clone, Copy, Debug, PartialEq, Eq, Structural)]
pub enum BootstrapDirective {
    /// Start the collaborator with its arguments and all three streams piped.
    Launch,
    /// Write the script to its input and close the input.
    Feed,
    /// Wait for its exit, up to `BOOTSTRAP_TIMEOUT_MS`, reading its output
    /// meanwhile.
    Await,
    /// Kill it.
    KillLocal,
    /// End with the report.
    Finish,
    /// End with the error.
    Fail,
}

/// The state of a bootstrap run.
pub struct BootstrapView {
    pub phase: BootstrapPhase,
    pub report: Option<BootstrapReport>,
    pub failure: Option<BootstrapError>,
}

impl BootstrapView {
    pub open spec fn initial() -> BootstrapView {
        BootstrapView { phase: BootstrapPhase::Launching, report: None, failure: None }
    }

    pub open spec fn directive(self) -> BootstrapDirective {
        match self.phase {
            BootstrapPhase::Launching => BootstrapDirective::Launch,
            BootstrapPhase::Feeding => BootstrapDirective::Feed,
            BootstrapPhase::Waiting => BootstrapDirective::Await,
            BootstrapPhase::Reaping => BootstrapDirective::KillLocal,
            BootstrapPhase::Done => BootstrapDirective::Finish,
            BootstrapPhase::Failed => BootstrapDirective::Fail,
        }
    }

    pub open spec fn fail(self, why: BootstrapError) -> BootstrapView {
        BootstrapView { phase: BootstrapPhase::Failed, failure: Some(why), ..self }
    }

    pub open spec fn finish(self, report: BootstrapReport) -> BootstrapView {
        BootstrapView { phase: BootstrapPhase::Done, report: Some(report), ..self }
    }

    /// The state after `event`. An event that the state does not wait for
    /// changes nothing.
    pub open spec fn next(self, event: BootstrapEvent) -> BootstrapView {
        match self.phase {
            BootstrapPhase::Launching => match event {
                BootstrapEvent::Launched => BootstrapView {
                    phase: BootstrapPhase::Feeding,
                    ..self
                },
                BootstrapEvent::LaunchFailed => self.fail(BootstrapError::Launch),
                _ => self,
            },
            BootstrapPhase::Feeding => match event {
                BootstrapEvent::Fed => BootstrapView { phase: BootstrapPhase::Waiting, ..self },
                BootstrapEvent::FeedFailed => self.fail(BootstrapError::Feed),
                _ => self,
            },
            BootstrapPhase::Waiting => match event {
                BootstrapEvent::Exited(success) => self.finish(
                    if success {
                        BootstrapReport::Started
                    } else {
                        BootstrapReport::Unconfirmed
                    },
                ),
                BootstrapEvent::WaitFailed => self.fail(BootstrapError::Wait),
                BootstrapEvent::TimedOut => BootstrapView {
                    phase: BootstrapPhase::Reaping,
                    ..self
                },
                _ => self,
            },
            BootstrapPhase::Reaping => match event {
                BootstrapEvent::Reaped => self.finish(BootstrapReport::Assumed),
                _ => self,
            },
            BootstrapPhase::Done | BootstrapPhase::Failed => self,
        }
    }

    /// The state after a whole run of events.
    pub open spec fn run(self, events: Seq<BootstrapEvent>) -> BootstrapView
        decreases events.len(),
    {
        if events.len() == 0 {
            self
        } else {
            self.run(events.drop_last()).next(events.last())
        }
    }

    /// The invariant of a bootstrap run.
    pub open spec fn wf(self) -> bool {
        &&& self.phase is Done <==> self.report is Some
        &&& self.phase is Failed <==> self.failure is Some
    }
}

/// Every state that a run of events leads to obeys the invariant: a run has
/// a report exactly when it is done and an error exactly when it has failed,
/// never both.
pub proof fn law_bootstrap_reachable_states_are_valid(events: Seq<BootstrapEvent>)
    ensures
        BootstrapView::initial().run(events).wf(),
    decreases events.len(),
{
    if events.len() > 0 {
        law_bootstrap_reachable_states_are_valid(events.drop_last());
    }
}

/// A collaborator that has been started and fed counts as success however it
/// exits, and also when it does not exit in time: then it is killed first.
/// Only a failure to wait counts as an error.
pub proof fn law_bootstrap_is_best_effort(v: BootstrapView, success: bool)
    requires
        v.phase is Waiting,
    ensures
        v.next(BootstrapEvent::Exited(success)).directive() is Finish,
        v.next(BootstrapEvent::Exited(true)).report == Some(BootstrapReport::Started),
        v.next(BootstrapEvent::Exited(false)).report == Some(BootstrapReport::Unconfirmed),
        v.next(BootstrapEvent::TimedOut).directive() is KillLocal,
        v.next(BootstrapEvent::TimedOut).next(BootstrapEvent::Reaped).directive() is Finish,
        v.next(BootstrapEvent::TimedOut).next(BootstrapEvent::Reaped).report == Some(
            BootstrapReport::Assumed,
        ),
        v.next(BootstrapEvent::WaitFailed).failure == Some(BootstrapError::Wait),
{
}

/// A run that is done or has failed ignores whatever is reported to it.
pub proof fn law_bootstrap_end_is_final(v: BootstrapView, event: BootstrapEvent)
    requires
        v.phase is Done || v.phase is Failed,
    ensures
        v.next(event) == v,
{
}

/// The state of one run of the collaborator.
pub struct Bootstrap {
    phase: BootstrapPhase,
    report: Option<BootstrapReport>,
    failure: Option<BootstrapError>,
}

impl View for Bootstrap {
    type V = BootstrapView;

    closed spec fn view(&self) -> BootstrapView {
        BootstrapView { phase: self.phase, report: self.report, failure: self.failure }
    }
}

impl Bootstrap {
    /// A run that is about to start the collaborator.
    pub fn new() -> (run: Bootstrap)
        ensures
            run@ == BootstrapView::initial(),
            run@.wf(),
    {
        Bootstrap { phase: BootstrapPhase::Launching, report: None, failure: None }
    }

    pub fn phase(&self) -> (phase: BootstrapPhase)
        ensures
            phase == self@.phase,
    {
        self.phase
    }

    /// How the run ended, once it is done.
    pub fn report(&self) -> (report: Option<BootstrapReport>)
        ensures
            report == self@.report,
    {
        self.report
    }

    /// Why the run failed, once it has.
    pub fn failure(&self) -> (failure: Option<BootstrapError>)
        ensures
            failure == self@.failure,
    {
        self.failure
    }

    /// What the caller has to do now.
    pub fn directive(&self) -> (directive: BootstrapDirective)
        ensures
            directive == self@.directive(),
    {
        match self.phase {
            BootstrapPhase::Launching => BootstrapDirective::Launch,
            BootstrapPhase::Feeding => BootstrapDirective::Feed,
            BootstrapPhase::Waiting => BootstrapDirective::Await,
            BootstrapPhase::Reaping => BootstrapDirective::KillLocal,
            BootstrapPhase::Done => BootstrapDirective::Finish,
            BootstrapPhase::Failed => BootstrapDirective::Fail,
        }
    }

    fn fail(&mut self, why: BootstrapError)
        ensures
            final(self)@ == old(self)@.fail(why),
    {
        self.phase = BootstrapPhase::Failed;
        self.failure = Some(why);
    }

    fn finish(&mut self, report: BootstrapReport)
        ensures
            final(self)@ == old(self)@.finish(report),
    {
        self.phase = BootstrapPhase::Done;
        self.report = Some(report);
    }

    /// Takes in what the caller reports and says what to do next. An event
    /// that the run does not wait for changes nothing.
    pub fn step(&mut self, event: BootstrapEvent) -> (directive: BootstrapDirective)
        ensures
            final(self)@ == old(self)@.next(event),
            old(self)@.wf() ==> final(self)@.wf(),
            directive == final(self)@.directive(),
    {
        match self.phase {
            BootstrapPhase::Launching => match event {
                BootstrapEvent::Launched => {
                    self.phase = BootstrapPhase::Feeding;
                },
                BootstrapEvent::LaunchFailed => {
                    self.fail(BootstrapError::Launch);
                },
                _ => {},
            },
            BootstrapPhase::Feeding => match event {
                BootstrapEvent::Fed => {
                    self.phase = BootstrapPhase::Waiting;
                },
                BootstrapEvent::FeedFailed => {
                    self.fail(BootstrapError::Feed);
                },
                _ => {},
            },
            BootstrapPhase::Waiting => match event {
                BootstrapEvent::Exited(success) => {
                    if success {
                        self.finish(BootstrapReport::Started);
                    } else {
                        self.finish(BootstrapReport::Unconfirmed);
                    }
                },
                BootstrapEvent::WaitFailed => {
                    self.fail(BootstrapError::Wait);
                },
                BootstrapEvent::TimedOut => {
                    self.phase = BootstrapPhase::Reaping;
                },
                _ => {},
            },
            BootstrapPhase::Reaping => match event {
                BootstrapEvent::Reaped => {
                    self.finish(BootstrapReport::Assumed);
                },
                _ => {},
            },
            BootstrapPhase::Done | BootstrapPhase::Failed => {},
        }
        self.directive()
    }
}

} // verus!
