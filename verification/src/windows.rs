//! Jobs, in which an emulator and its children are killed together.

use vstd::prelude::*;

use crate::error::joined;

verus! {

/// What is done to start a process in a job of its own, and to end the job.
#[derive(Clone, Copy, Debug, PartialEq, Eq, Structural)]
pub enum JobStep {
    Create,
    QueryInfo,
    SetInfo,
    OpenProcess,
    AssignProcess,
    Snapshot,
    OpenThread,
    Terminate,
}

impl JobStep {
    /// What is said of a step that failed.
    pub open spec fn spec_failure(self) -> Seq<char> {
        match self {
            JobStep::Create => "Failed to create job: "@,
            JobStep::QueryInfo => "Failed to query job info: "@,
            JobStep::SetInfo => "Failed to set job info: "@,
            JobStep::OpenProcess => "Failed to open process: "@,
            JobStep::AssignProcess => "Failed to assign process to job: "@,
            JobStep::Snapshot => "Failed to create snapshot: "@,
            JobStep::OpenThread => "Failed to open thread: "@,
            JobStep::Terminate => "Failed to terminate job: "@,
        }
    }

    /// The error for a step that failed.
    pub fn failure(self, e: &str) -> (res: String)
        ensures
            res@ == self.spec_failure() + e@,
    {
        match self {
            JobStep::Create => joined("Failed to create job: ", e),
            JobStep::QueryInfo => joined("Failed to query job info: ", e),
            JobStep::SetInfo => joined("Failed to set job info: ", e),
            JobStep::OpenProcess => joined("Failed to open process: ", e),
            JobStep::AssignProcess => joined("Failed to assign process to job: ", e),
            JobStep::Snapshot => joined("Failed to create snapshot: ", e),
            JobStep::OpenThread => joined("Failed to open thread: ", e),
            JobStep::Terminate => joined("Failed to terminate job: ", e),
        }
    }
}

/// A thread in a snapshot of the system.
#[derive(Clone, Copy, Debug, PartialEq, Eq, Structural)]
pub struct ThreadEntry {
    pub owner: u32,
    pub thread: u32,
}

/// The first of the threads that belongs to the process, if there is one.
pub open spec fn first_thread(threads: Seq<ThreadEntry>, process: u32) -> Option<u32>
    decreases threads.len(),
{
    if threads.len() == 0 {
        None
    } else if threads.first().owner == process {
        Some(threads.first().thread)
    } else {
        first_thread(threads.drop_first(), process)
    }
}

/// The thread of a process that was started suspended: the first of its
/// threads in the snapshot.
pub fn main_thread(threads: &Vec<ThreadEntry>, process: u32) -> (res: Option<u32>)
    ensures
        res == first_thread(threads@, process),
{
    assert(threads@.skip(0) =~= threads@);
    for i in 0..threads.len()
        invariant
            first_thread(threads@, process) == first_thread(threads@.skip(i as int), process),
    {
        assert(threads@.skip(i as int).drop_first() =~= threads@.skip(i + 1));
        if threads[i].owner == process {
            return Some(threads[i].thread);
        }
    }
    None
}

/// How far the start of a process in a job of its own has come.
#[derive(Clone, Copy, Debug, PartialEq, Eq, Structural)]
pub enum JobSpawn {
    /// The job is being made.
    Create,
    /// What limits the job has is being asked for.
    QueryInfo,
    /// The job is told to end its processes when it is closed.
    SetInfo,
    /// The process is being started, suspended.
    Start,
    /// The process is being opened.
    OpenProcess { process: u32 },
    /// The process is being put into the job.
    AssignProcess { process: u32 },
    /// The threads are being listed.
    Snapshot { process: u32 },
    /// The thread of the process is being opened.
    OpenThread,
    /// The thread is being resumed.
    Resume,
    /// There is nothing left to do.
    Ended,
}

/// What became of the last action.
pub enum JobEvent {
    Succeeded,
    Failed(String),
    /// The process was started, with that identifier if it has one.
    Started(Option<u32>),
    /// The process could not be started.
    NotStarted(String),
    /// The threads of the system.
    Threads(Vec<ThreadEntry>),
}

/// What to do next.
pub enum JobAction {
    QueryInfo,
    /// Have the job end its processes when it is closed.
    SetInfo,
    /// Start the process, suspended.
    Start,
    OpenProcess(u32),
    AssignProcess,
    Snapshot,
    OpenThread(u32),
    Resume,
    /// The start is over.
    Done(Result<(), String>),
}

impl JobSpawn {
    /// What is being done that can fail in its own words.
    pub open spec fn step(self) -> Option<JobStep> {
        match self {
            JobSpawn::Create => Some(JobStep::Create),
            JobSpawn::QueryInfo => Some(JobStep::QueryInfo),
            JobSpawn::SetInfo => Some(JobStep::SetInfo),
            JobSpawn::OpenProcess { .. } => Some(JobStep::OpenProcess),
            JobSpawn::AssignProcess { .. } => Some(JobStep::AssignProcess),
            JobSpawn::Snapshot { .. } => Some(JobStep::Snapshot),
            JobSpawn::OpenThread => Some(JobStep::OpenThread),
            _ => None,
        }
    }

    /// Whether the event can come now.
    pub open spec fn expects(self, event: JobEvent) -> bool {
        match event {
            JobEvent::Succeeded => !(self is Start || self is Snapshot || self is Ended),
            JobEvent::Failed(_) => self.step() is Some,
            JobEvent::Started(_) | JobEvent::NotStarted(_) => self is Start,
            JobEvent::Threads(_) => self is Snapshot,
        }
    }

    /// What a step does.
    pub open spec fn spawn_step(
        pre: JobSpawn,
        event: JobEvent,
        post: JobSpawn,
        action: JobAction,
    ) -> bool {
        match (event, pre) {
            (JobEvent::Failed(e), _) => post is Ended && (action matches JobAction::Done(Err(m))
                && m@ == pre.step()->0.spec_failure() + e@),
            (JobEvent::NotStarted(e), _) => post is Ended && action == JobAction::Done(Err(e)),
            (JobEvent::Started(None), _) => post is Ended && (action matches JobAction::Done(
                Err(m),
            ) && m@ == "Child process has no ID"@),
            (JobEvent::Started(Some(process)), _) => post == (JobSpawn::OpenProcess { process })
                && action == JobAction::OpenProcess(process),
            (JobEvent::Threads(threads), JobSpawn::Snapshot { process }) => match first_thread(
                threads@,
                process,
            ) {
                Some(thread) => post is OpenThread && action == JobAction::OpenThread(thread),
                None => post is Ended && (action matches JobAction::Done(Err(m)) && m@
                    == "Could not find main thread to resume"@),
            },
            (JobEvent::Succeeded, JobSpawn::Create) => post is QueryInfo && action is QueryInfo,
            (JobEvent::Succeeded, JobSpawn::QueryInfo) => post is SetInfo && action is SetInfo,
            (JobEvent::Succeeded, JobSpawn::SetInfo) => post is Start && action is Start,
            (JobEvent::Succeeded, JobSpawn::OpenProcess { process }) => post == (
            JobSpawn::AssignProcess { process }) && action is AssignProcess,
            (JobEvent::Succeeded, JobSpawn::AssignProcess { process }) => post == (
            JobSpawn::Snapshot { process }) && action is Snapshot,
            (JobEvent::Succeeded, JobSpawn::OpenThread) => post is Resume && action is Resume,
            (JobEvent::Succeeded, JobSpawn::Resume) => post is Ended && action == JobAction::Done(
                Ok(()),
            ),
            _ => false,
        }
    }

    /// One step of the start of a process in a job of its own, which begins
    /// with making the job.
    ///
    /// The process is created suspended, assigned to the job and then resumed,
    /// so that all processes that it starts are in the job too.
    pub fn spawn(self, event: JobEvent) -> (res: (JobSpawn, JobAction))
        requires
            self.expects(event),
        ensures
            JobSpawn::spawn_step(self, event, res.0, res.1),
    {
        match event {
            JobEvent::Failed(e) => {
                let step = match self {
                    JobSpawn::Create => JobStep::Create,
                    JobSpawn::QueryInfo => JobStep::QueryInfo,
                    JobSpawn::SetInfo => JobStep::SetInfo,
                    JobSpawn::OpenProcess { .. } => JobStep::OpenProcess,
                    JobSpawn::AssignProcess { .. } => JobStep::AssignProcess,
                    JobSpawn::Snapshot { .. } => JobStep::Snapshot,
                    _ => JobStep::OpenThread,
                };
                (JobSpawn::Ended, JobAction::Done(Err(step.failure(e.as_str()))))
            },
            JobEvent::NotStarted(e) => (JobSpawn::Ended, JobAction::Done(Err(e))),
            JobEvent::Started(None) => (
                JobSpawn::Ended,
                JobAction::Done(Err("Child process has no ID".to_owned())),
            ),
            JobEvent::Started(Some(process)) => (
                JobSpawn::OpenProcess { process },
                JobAction::OpenProcess(process),
            ),
            JobEvent::Threads(threads) => match self {
                JobSpawn::Snapshot { process } => match main_thread(&threads, process) {
                    Some(thread) => (JobSpawn::OpenThread, JobAction::OpenThread(thread)),
                    None => (
                        JobSpawn::Ended,
                        JobAction::Done(Err("Could not find main thread to resume".to_owned())),
                    ),
                },
                _ => vstd::pervasive::unreached(),
            },
            JobEvent::Succeeded => match self {
                JobSpawn::Create => (JobSpawn::QueryInfo, JobAction::QueryInfo),
                JobSpawn::QueryInfo => (JobSpawn::SetInfo, JobAction::SetInfo),
                JobSpawn::SetInfo => (JobSpawn::Start, JobAction::Start),
                JobSpawn::OpenProcess { process } => (
                    JobSpawn::AssignProcess { process },
                    JobAction::AssignProcess,
                ),
                JobSpawn::AssignProcess { process } => (
                    JobSpawn::Snapshot { process },
                    JobAction::Snapshot,
                ),
                JobSpawn::OpenThread => (JobSpawn::Resume, JobAction::Resume),
                JobSpawn::Resume => (JobSpawn::Ended, JobAction::Done(Ok(()))),
                _ => vstd::pervasive::unreached(),
            },
        }
    }
}

/// Whether the process has been put into the job, and the start goes on.
pub open spec fn in_job(state: JobSpawn) -> bool {
    state is Snapshot || state is OpenThread || state is Resume
}

/// The process is resumed only after it has been put into the job.
pub proof fn law_resumed_in_job(pre: JobSpawn, event: JobEvent, post: JobSpawn, action: JobAction)
    requires
        pre.expects(event),
        JobSpawn::spawn_step(pre, event, post, action),
    ensures
        action is Resume ==> in_job(pre) && in_job(post),
        in_job(post) ==> in_job(pre) || pre is AssignProcess && event is Succeeded,
        action == JobAction::Done(Ok(())) ==> pre is Resume,
{
}

/// How many steps a start can still take.
pub open spec fn steps_left(state: JobSpawn) -> nat {
    match state {
        JobSpawn::Create => 9,
        JobSpawn::QueryInfo => 8,
        JobSpawn::SetInfo => 7,
        JobSpawn::Start => 6,
        JobSpawn::OpenProcess { .. } => 5,
        JobSpawn::AssignProcess { .. } => 4,
        JobSpawn::Snapshot { .. } => 3,
        JobSpawn::OpenThread => 2,
        JobSpawn::Resume => 1,
        JobSpawn::Ended => 0,
    }
}

/// A start is over after nine steps at most, and it is over when and only when
/// nothing is left to do.
pub proof fn law_job_spawn_ends(
    pre: JobSpawn,
    event: JobEvent,
    post: JobSpawn,
    action: JobAction,
)
    requires
        pre.expects(event),
        JobSpawn::spawn_step(pre, event, post, action),
    ensures
        steps_left(post) < steps_left(pre),
        post is Ended <==> action is Done,
{
}

/// The thread that is resumed is the first in the snapshot that belongs to the
/// process, whatever stands around it; without one there is none.
pub proof fn law_first_thread_of_the_process(
    threads: Vec<ThreadEntry>,
    process: u32,
    i: int,
    res: Option<u32>,
)
    requires
        call_ensures(main_thread, (&threads, process), res),
        0 <= i <= threads@.len(),
        i < threads@.len() ==> threads@[i].owner == process,
        forall|j: int| 0 <= j < i ==> (#[trigger] threads@[j]).owner != process,
    ensures
        i < threads@.len() ==> res == Some(threads@[i].thread),
        i == threads@.len() ==> res is None,
{
    lemma_first_thread(threads@, process, i);
}

proof fn lemma_first_thread(threads: Seq<ThreadEntry>, process: u32, i: int)
    requires
        0 <= i <= threads.len(),
        i < threads.len() ==> threads[i].owner == process,
        forall|j: int| 0 <= j < i ==> (#[trigger] threads[j]).owner != process,
    ensures
        i < threads.len() ==> first_thread(threads, process) == Some(threads[i].thread),
        i == threads.len() ==> first_thread(threads, process) is None,
    decreases threads.len(),
{
    if i > 0 {
        let rest = threads.drop_first();
        assert(threads[0].owner != process);
        assert forall|j: int| 0 <= j < i - 1 implies (#[trigger] rest[j]).owner != process by {
            assert(rest[j] == threads[j + 1]);
        }
        lemma_first_thread(rest, process, i - 1);
    }
}

/// A start goes through its steps in order: the job is made, asked for its
/// limits and told to end its processes when it is closed; the process is
/// started, suspended, opened and put into the job; its thread is looked for,
/// opened and resumed.
pub proof fn law_job_steps(state: JobSpawn, res: (JobSpawn, JobAction))
    requires
        call_ensures(JobSpawn::spawn, (state, JobEvent::Succeeded), res),
    ensures
        state is Create ==> res.0 is QueryInfo && res.1 is QueryInfo,
        state is QueryInfo ==> res.0 is SetInfo && res.1 is SetInfo,
        state is SetInfo ==> res.0 is Start && res.1 is Start,
        state matches JobSpawn::OpenProcess { process } ==> res.0 == (JobSpawn::AssignProcess {
            process,
        }) && res.1 is AssignProcess,
        state matches JobSpawn::AssignProcess { process } ==> res.0 == (JobSpawn::Snapshot {
            process,
        }) && res.1 is Snapshot,
        state is OpenThread ==> res.0 is Resume && res.1 is Resume,
        state is Resume ==> res.0 is Ended && res.1 == JobAction::Done(Ok(())),
{
}

/// The process that is opened is the one that was started. One without an
/// identifier, or that was not started, is the end.
pub proof fn law_job_process(started: Option<u32>, why: String, res: (JobSpawn, JobAction))
    ensures
        call_ensures(JobSpawn::spawn, (JobSpawn::Start, JobEvent::Started(started)), res) ==> {
            &&& started matches Some(process) ==> res.0 == (JobSpawn::OpenProcess { process })
                && res.1 == JobAction::OpenProcess(process)
            &&& started is None ==> res.0 is Ended && (res.1 matches JobAction::Done(Err(m)) && m@
                == "Child process has no ID"@)
        },
        call_ensures(JobSpawn::spawn, (JobSpawn::Start, JobEvent::NotStarted(why)), res) ==> res.0
            is Ended && res.1 == JobAction::Done(Err(why)),
{
}

/// Of the threads, the first that belongs to the process is opened; where there
/// is none, that is the end.
pub proof fn law_job_thread(
    process: u32,
    threads: Vec<ThreadEntry>,
    i: int,
    res: (JobSpawn, JobAction),
)
    requires
        call_ensures(
            JobSpawn::spawn,
            (JobSpawn::Snapshot { process }, JobEvent::Threads(threads)),
            res,
        ),
        0 <= i <= threads@.len(),
        i < threads@.len() ==> threads@[i].owner == process,
        forall|j: int| 0 <= j < i ==> (#[trigger] threads@[j]).owner != process,
    ensures
        i < threads@.len() ==> res.0 is OpenThread && res.1 == JobAction::OpenThread(
            threads@[i].thread,
        ),
        i == threads@.len() ==> res.0 is Ended && (res.1 matches JobAction::Done(Err(m)) && m@
            == "Could not find main thread to resume"@),
{
    lemma_first_thread(threads@, process, i);
}

/// A step that fails is the end, and what is said of it names the step and the
/// reason.
pub proof fn law_job_failures(state: JobSpawn, why: String, res: (JobSpawn, JobAction))
    requires
        state.expects(JobEvent::Failed(why)),
        call_ensures(JobSpawn::spawn, (state, JobEvent::Failed(why)), res),
    ensures
        res.0 is Ended,
        res.1 matches JobAction::Done(Err(m)) && {
            &&& state is Create ==> m@ == "Failed to create job: "@ + why@
            &&& state is QueryInfo ==> m@ == "Failed to query job info: "@ + why@
            &&& state is SetInfo ==> m@ == "Failed to set job info: "@ + why@
            &&& state is OpenProcess ==> m@ == "Failed to open process: "@ + why@
            &&& state is AssignProcess ==> m@ == "Failed to assign process to job: "@ + why@
            &&& state is Snapshot ==> m@ == "Failed to create snapshot: "@ + why@
            &&& state is OpenThread ==> m@ == "Failed to open thread: "@ + why@
        },
{
}

/// What is said of a job that cannot be ended.
pub proof fn law_terminate_failure(why: &str, res: String)
    requires
        call_ensures(JobStep::failure, (JobStep::Terminate, why), res),
    ensures
        res@ == "Failed to terminate job: "@ + why@,
{
}

} // verus!
