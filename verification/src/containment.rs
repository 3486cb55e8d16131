//! Process containment: binding a spawned process to a job whose last handle,
//! when closed, terminates the process and everything it started.
//!
//! The system calls are the caller's part. `assign_to_new_job` begins a
//! `JobSetup`, which names the call to make next and takes the raw value each
//! call returned, where zero means failure.

use vstd::prelude::*;

verus! {

/// The handle of a job that holds a process. While it is held the process
/// may live; closing it kills what is in the job.
#[derive(Debug)]
pub struct JobHandle {
    raw: usize,
}

impl View for JobHandle {
    type V = usize;

    closed spec fn view(&self) -> usize {
        self.raw
    }
}

impl JobHandle {
    /// The raw value of the handle, for the call that closes it.
    pub fn raw(&self) -> (raw: usize)
        ensures
            raw == self@,
    {
        self.raw
    }
}

/// Where the binding of a process stands.
#[derive(Clone, Copy, Debug, PartialEq, Eq, Structural)]
pub enum JobPhase {
    /// The job is to be created.
    Creating,
    /// The job is to be told to kill its processes when it is closed.
    Configuring,
    /// The process is to be put into the job.
    Assigning,
    /// A call failed after the job was created: the job is to be closed.
    Abandoning,
    Bound,
    Failed,
}

/// Why a process could not be bound.
#[derive(Clone, Copy, Debug, PartialEq, Eq, Structural)]
pub enum JobError {
    /// The process has no handle: it has exited already.
    NoProcess,
    /// The job could not be created.
    Create,
    /// The job could not be told to kill on close.
    Configure,
    /// The process could not be put into the job.
    Assign,
}

/// The call a job setup asks for.
#[derive(Clone, Copy, Debug, PartialEq, Eq, Structural)]
pub enum JobDirective {
    /// Create an unnamed job and report its handle.
    CreateJob,
    /// Set the limit that kills on close on the job with this handle.
    SetKillOnClose(usize),
    /// Put the process into the job: the job's handle, then the process's.
    AssignProcess(usize, usize),
    /// Close the job with this handle.
    CloseJob(usize),
    /// Take the handle: the process is bound.
    Finish,
    /// End with the error.
    Fail,
}

/// The state of a job setup.
pub struct JobSetupView {
    pub phase: JobPhase,
    /// The handle of the process.
    pub process: usize,
    /// The handle of the job, once it is created.
    pub job: usize,
    pub failure: Option<JobError>,
}

impl JobSetupView {
    pub open spec fn initial(process_handle: Option<usize>) -> JobSetupView {
        match process_handle {
            Some(process) => JobSetupView {
                phase: JobPhase::Creating,
                process,
                job: 0,
                failure: None,
            },
            None => JobSetupView {
                phase: JobPhase::Failed,
                process: 0,
                job: 0,
                failure: Some(JobError::NoProcess),
            },
        }
    }

    pub open spec fn directive(self) -> JobDirective {
        match self.phase {
            JobPhase::Creating => JobDirective::CreateJob,
            JobPhase::Configuring => JobDirective::SetKillOnClose(self.job),
            JobPhase::Assigning => JobDirective::AssignProcess(self.job, self.process),
            JobPhase::Abandoning => JobDirective::CloseJob(self.job),
            JobPhase::Bound => JobDirective::Finish,
            JobPhase::Failed => JobDirective::Fail,
        }
    }

    /// Whether a job exists that has been created and not closed.
    pub open spec fn job_open(self) -> bool {
        self.phase is Configuring || self.phase is Assigning || self.phase is Abandoning
            || self.phase is Bound
    }

    /// The state after the call that was asked for has returned `result`.
    pub open spec fn next(self, result: usize) -> JobSetupView {
        match self.phase {
            JobPhase::Creating => if result == 0 {
                JobSetupView { phase: JobPhase::Failed, failure: Some(JobError::Create), ..self }
            } else {
                JobSetupView { phase: JobPhase::Configuring, job: result, ..self }
            },
            JobPhase::Configuring => if result == 0 {
                JobSetupView {
                    phase: JobPhase::Abandoning,
                    failure: Some(JobError::Configure),
                    ..self
                }
            } else {
                JobSetupView { phase: JobPhase::Assigning, ..self }
            },
            JobPhase::Assigning => if result == 0 {
                JobSetupView {
                    phase: JobPhase::Abandoning,
                    failure: Some(JobError::Assign),
                    ..self
                }
            } else {
                JobSetupView { phase: JobPhase::Bound, ..self }
            },
            JobPhase::Abandoning => JobSetupView { phase: JobPhase::Failed, job: 0, ..self },
            JobPhase::Bound | JobPhase::Failed => self,
        }
    }

    /// The state after a whole run of results.
    pub open spec fn run(self, results: Seq<usize>) -> JobSetupView
        decreases results.len(),
    {
        if results.len() == 0 {
            self
        } else {
            self.run(results.drop_last()).next(results.last())
        }
    }

    /// The invariant of a job setup.
    pub open spec fn wf(self) -> bool {
        &&& self.job_open() <==> self.job != 0
        &&& (self.phase is Abandoning || self.phase is Failed) <==> self.failure is Some
        &&& self.phase is Bound ==> self.failure is None
    }
}

/// Every state that a run of results leads to obeys the invariant: a job
/// that was created is either still open, on the way to being held or
/// closed, or the setup has failed and holds none.
pub proof fn law_job_is_never_leaked(process_handle: Option<usize>, results: Seq<usize>)
    ensures
        JobSetupView::initial(process_handle).run(results).wf(),
        JobSetupView::initial(process_handle).run(results).phase is Failed
            ==> !JobSetupView::initial(process_handle).run(results).job_open(),
    decreases results.len(),
{
    if results.len() > 0 {
        law_job_is_never_leaked(process_handle, results.drop_last());
    }
}

/// A process is bound by exactly three calls that all succeed, in this
/// order: create, set the limit, assign. Any failure among them ends in an
/// error, after the job, if there is one, has been closed.
pub proof fn law_binding_takes_three_calls(process: usize, job: usize, second: usize, third: usize)
    requires
        job != 0,
    ensures
        ({
            let start = JobSetupView::initial(Some(process));
            let created = start.next(job);
            let configured = created.next(second);
            let assigned = configured.next(third);
            &&& start.directive() is CreateJob
            &&& start.next(0).directive() is Fail
            &&& start.next(0).failure == Some(JobError::Create)
            &&& created.directive() == JobDirective::SetKillOnClose(job)
            &&& second != 0 ==> configured.directive() == JobDirective::AssignProcess(job, process)
            &&& second == 0 ==> configured.directive() == JobDirective::CloseJob(job)
                && configured.failure == Some(JobError::Configure) && assigned.directive() is Fail
            &&& second != 0 && third != 0 ==> assigned.directive() is Finish && assigned.job == job
            &&& second != 0 && third == 0 ==> assigned.directive() == JobDirective::CloseJob(job)
                && assigned.failure == Some(JobError::Assign)
        }),
        JobSetupView::initial(None).directive() is Fail,
        JobSetupView::initial(None).failure == Some(JobError::NoProcess),
{
}

/// The binding of one process to a new job.
pub struct JobSetup {
    phase: JobPhase,
    process: usize,
    job: usize,
    failure: Option<JobError>,
}

impl View for JobSetup {
    type V = JobSetupView;

    closed spec fn view(&self) -> JobSetupView {
        JobSetupView {
            phase: self.phase,
            process: self.process,
            job: self.job,
            failure: self.failure,
        }
    }
}

/// Begins to bind the process with this handle to a job of its own. A
/// process without a handle cannot be bound.
pub fn assign_to_new_job(process_handle: Option<usize>) -> (setup: JobSetup)
    ensures
        setup@ == JobSetupView::initial(process_handle),
        setup@.wf(),
{
    match process_handle {
        Some(process) => JobSetup { phase: JobPhase::Creating, process, job: 0, failure: None },
        None => JobSetup {
            phase: JobPhase::Failed,
            process: 0,
            job: 0,
            failure: Some(JobError::NoProcess),
        },
    }
}

impl JobSetup {
    pub fn phase(&self) -> (phase: JobPhase)
        ensures
            phase == self@.phase,
    {
        self.phase
    }

    /// Why the binding failed, once a call has.
    pub fn failure(&self) -> (failure: Option<JobError>)
        ensures
            failure == self@.failure,
    {
        self.failure
    }

    /// The call to make now.
    pub fn directive(&self) -> (directive: JobDirective)
        ensures
            directive == self@.directive(),
    {
        match self.phase {
            JobPhase::Creating => JobDirective::CreateJob,
            JobPhase::Configuring => JobDirective::SetKillOnClose(self.job),
            JobPhase::Assigning => JobDirective::AssignProcess(self.job, self.process),
            JobPhase::Abandoning => JobDirective::CloseJob(self.job),
            JobPhase::Bound => JobDirective::Finish,
            JobPhase::Failed => JobDirective::Fail,
        }
    }

    /// Takes in what the call that was asked for returned, zero meaning
    /// failure, and names the next call.
    pub fn step(&mut self, result: usize) -> (directive: JobDirective)
        requires
            old(self)@.wf(),
        ensures
            final(self)@ == old(self)@.next(result),
            final(self)@.wf(),
            directive == final(self)@.directive(),
    {
        match self.phase {
            JobPhase::Creating => {
                if result == 0 {
                    self.phase = JobPhase::Failed;
                    self.failure = Some(JobError::Create);
                } else {
                    self.phase = JobPhase::Configuring;
                    self.job = result;
                }
            },
            JobPhase::Configuring => {
                if result == 0 {
                    self.phase = JobPhase::Abandoning;
                    self.failure = Some(JobError::Configure);
                } else {
                    self.phase = JobPhase::Assigning;
                }
            },
            JobPhase::Assigning => {
                if result == 0 {
                    self.phase = JobPhase::Abandoning;
                    self.failure = Some(JobError::Assign);
                } else {
                    self.phase = JobPhase::Bound;
                }
            },
            JobPhase::Abandoning => {
                self.phase = JobPhase::Failed;
                self.job = 0;
            },
            JobPhase::Bound | JobPhase::Failed => {},
        }
        self.directive()
    }

    /// The handle of the job, once the process is bound to it.
    pub fn handle(&self) -> (handle: Option<JobHandle>)
        requires
            self@.wf(),
        ensures
            handle is Some <==> self@.phase is Bound,
            handle matches Some(job) ==> job@ == self@.job && job@ != 0,
    {
        match self.phase {
            JobPhase::Bound => Some(JobHandle { raw: self.job }),
            _ => None,
        }
    }
}

} // verus!
