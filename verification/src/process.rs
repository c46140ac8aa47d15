//! The process of an emulator that was started here: how its output is
//! forwarded, and how it is killed.

use vstd::prelude::*;

use crate::error::EmulatorError;
use crate::log::{self, log_emulator_line, LogLevel};

verus! {

/// What a task that forwards the output of the process is told.
pub enum ForwardEvent {
    /// It is to end, or nobody is left who could tell it to.
    Shutdown,
    /// A line was read.
    Line(String),
    /// The output has ended.
    Eof,
    /// The output could not be read.
    ReadFailed(String),
}

/// What a task that forwards the output of the process does next.
pub enum ForwardAction {
    /// Log the text at the level, and read on.
    Log(LogLevel, String),
    /// End.
    Exit,
    /// End with the error.
    Fail(String),
}

/// What a task that forwards output does: every line is logged until the task
/// is told to end, or the output ends or fails.
pub fn forward_step(event: ForwardEvent) -> (res: ForwardAction)
    ensures
        match event {
            ForwardEvent::Shutdown | ForwardEvent::Eof => res is Exit,
            ForwardEvent::Line(line) => res matches ForwardAction::Log(level, text) && (level, text@)
                == log::log_record(line@),
            ForwardEvent::ReadFailed(e) => res == ForwardAction::Fail(e),
        },
{
    match event {
        ForwardEvent::Shutdown | ForwardEvent::Eof => ForwardAction::Exit,
        ForwardEvent::Line(line) => {
            let (level, text) = log_emulator_line(line.as_str());
            ForwardAction::Log(level, text.to_owned())
        },
        ForwardEvent::ReadFailed(e) => ForwardAction::Fail(e),
    }
}

/// What there is to clean up with a process.
#[derive(Clone, Copy, Debug, PartialEq, Eq, Structural)]
pub struct OwnedProcess {
    /// Whether the process and its children can be signalled together, as a
    /// process group or a job.
    pub tree: bool,
    /// Whether its output is forwarded by tasks that can be told to end.
    pub shutdown: bool,
    /// Whether a task forwards its standard output.
    pub stdout_task: bool,
    /// Whether a task forwards its standard error.
    pub stderr_task: bool,
}

/// How far the kill has come.
pub enum Killing {
    /// The process is being signalled.
    Signal,
    /// The process is to exit.
    Wait,
    /// The forwarding tasks are being told to end. The outcome of the wait is
    /// kept.
    Shutdown(Result<(), EmulatorError>),
    /// The task for standard output is to end.
    JoinStdout(Result<(), EmulatorError>),
    /// The task for standard error is to end.
    JoinStderr(Result<(), EmulatorError>),
    /// There is nothing left to do.
    Ended,
}

/// What became of the last action.
pub enum KillEvent {
    Signalled,
    SignalFailed(String),
    Exited,
    WaitFailed(String),
    /// The tasks were told to end.
    ShutdownSent,
    /// The task has ended, in whatever way.
    Joined,
}

/// What to do next.
pub enum KillAction {
    /// Signal the process and its children.
    SignalTree,
    /// Signal the process.
    SignalChild,
    /// Wait for the process to exit.
    Wait,
    /// Tell the forwarding tasks to end.
    SendShutdown,
    /// Wait for the task for standard output.
    JoinStdout,
    /// Wait for the task for standard error.
    JoinStderr,
    /// The kill is over.
    Done(Result<(), EmulatorError>),
}

impl OwnedProcess {
    /// What follows the task for standard output.
    pub open spec fn joins_stderr(
        self,
        outcome: Result<(), EmulatorError>,
        post: Killing,
        action: KillAction,
    ) -> bool {
        if self.stderr_task {
            post == Killing::JoinStderr(outcome) && action is JoinStderr
        } else {
            post is Ended && action == KillAction::Done(outcome)
        }
    }

    /// What follows the word to the tasks.
    pub open spec fn joins(
        self,
        outcome: Result<(), EmulatorError>,
        post: Killing,
        action: KillAction,
    ) -> bool {
        if self.stdout_task {
            post == Killing::JoinStdout(outcome) && action is JoinStdout
        } else {
            self.joins_stderr(outcome, post, action)
        }
    }

    /// What follows the end of the process.
    pub open spec fn cleans_up(
        self,
        outcome: Result<(), EmulatorError>,
        post: Killing,
        action: KillAction,
    ) -> bool {
        if self.shutdown {
            post == Killing::Shutdown(outcome) && action is SendShutdown
        } else {
            self.joins(outcome, post, action)
        }
    }

    /// What a step does.
    pub open spec fn kill_step(
        self,
        pre: Killing,
        event: KillEvent,
        post: Killing,
        action: KillAction,
    ) -> bool {
        match (pre, event) {
            (Killing::Signal, KillEvent::Signalled) => post is Wait && action is Wait,
            (Killing::Signal, KillEvent::SignalFailed(e)) => post is Ended && action
                == KillAction::Done(Err(EmulatorError::EmulatorKillFailed(e))),
            (Killing::Wait, KillEvent::Exited) => self.cleans_up(Ok(()), post, action),
            (Killing::Wait, KillEvent::WaitFailed(e)) => self.cleans_up(
                Err(EmulatorError::EmulatorKillFailed(e)),
                post,
                action,
            ),
            (Killing::Shutdown(outcome), KillEvent::ShutdownSent) => self.joins(
                outcome,
                post,
                action,
            ),
            (Killing::JoinStdout(outcome), KillEvent::Joined) => self.joins_stderr(
                outcome,
                post,
                action,
            ),
            (Killing::JoinStderr(outcome), KillEvent::Joined) => post is Ended && action
                == KillAction::Done(outcome),
            _ => false,
        }
    }

    fn join_stderr(&self, outcome: Result<(), EmulatorError>) -> (res: (Killing, KillAction))
        ensures
            self.joins_stderr(outcome, res.0, res.1),
    {
        if self.stderr_task {
            (Killing::JoinStderr(outcome), KillAction::JoinStderr)
        } else {
            (Killing::Ended, KillAction::Done(outcome))
        }
    }

    fn join_tasks(&self, outcome: Result<(), EmulatorError>) -> (res: (Killing, KillAction))
        ensures
            self.joins(outcome, res.0, res.1),
    {
        if self.stdout_task {
            (Killing::JoinStdout(outcome), KillAction::JoinStdout)
        } else {
            self.join_stderr(outcome)
        }
    }

    fn clean_up(&self, outcome: Result<(), EmulatorError>) -> (res: (Killing, KillAction))
        ensures
            self.cleans_up(outcome, res.0, res.1),
    {
        if self.shutdown {
            (Killing::Shutdown(outcome), KillAction::SendShutdown)
        } else {
            self.join_tasks(outcome)
        }
    }

    /// Kill an owned process and clean up its resources: how to start
    pub fn kill_owned_process(&self) -> (res: (Killing, KillAction))
        ensures
            res.0 is Signal,
            if self.tree {
                res.1 is SignalTree
            } else {
                res.1 is SignalChild
            },
    {
        if self.tree {
            (Killing::Signal, KillAction::SignalTree)
        } else {
            (Killing::Signal, KillAction::SignalChild)
        }
    }

    /// Kill an owned process and clean up its resources: how to go on
    ///
    /// The process is signalled first and awaited, and only then are the tasks
    /// that forward its output told to end: else the process could block on
    /// output that nobody reads.
    pub fn kill_next(&self, state: Killing, event: KillEvent) -> (res: (Killing, KillAction))
        requires
            kill_expects(state, event),
        ensures
            self.kill_step(state, event, res.0, res.1),
    {
        match (state, event) {
            (Killing::Signal, KillEvent::Signalled) => (Killing::Wait, KillAction::Wait),
            (Killing::Signal, KillEvent::SignalFailed(e)) => (
                Killing::Ended,
                KillAction::Done(Err(EmulatorError::EmulatorKillFailed(e))),
            ),
            (Killing::Wait, KillEvent::Exited) => self.clean_up(Ok(())),
            (Killing::Wait, KillEvent::WaitFailed(e)) => self.clean_up(
                Err(EmulatorError::EmulatorKillFailed(e)),
            ),
            (Killing::Shutdown(outcome), KillEvent::ShutdownSent) => self.join_tasks(outcome),
            (Killing::JoinStdout(outcome), KillEvent::Joined) => self.join_stderr(outcome),
            (Killing::JoinStderr(outcome), KillEvent::Joined) => (
                Killing::Ended,
                KillAction::Done(outcome),
            ),
            _ => vstd::pervasive::unreached(),
        }
    }
}

/// Whether the event can come in the state.
pub open spec fn kill_expects(state: Killing, event: KillEvent) -> bool {
    match event {
        KillEvent::Signalled | KillEvent::SignalFailed(_) => state is Signal,
        KillEvent::Exited | KillEvent::WaitFailed(_) => state is Wait,
        KillEvent::ShutdownSent => state is Shutdown,
        KillEvent::Joined => state is JoinStdout || state is JoinStderr,
    }
}

/// The outcome of the wait for the process, once there is one.
pub open spec fn kept(state: Killing) -> Option<Result<(), EmulatorError>> {
    match state {
        Killing::Shutdown(outcome) | Killing::JoinStdout(outcome) | Killing::JoinStderr(outcome) =>
            Some(outcome),
        _ => None,
    }
}

/// The forwarding tasks are told to end, and awaited, only after the process
/// has been waited for.
pub proof fn law_tasks_end_after_process(
    p: OwnedProcess,
    pre: Killing,
    event: KillEvent,
    post: Killing,
    action: KillAction,
)
    requires
        p.kill_step(pre, event, post, action),
        action is SendShutdown || action is JoinStdout || action is JoinStderr,
    ensures
        kept(pre) is Some || event is Exited || event is WaitFailed,
        kept(post) is Some,
{
}

/// The outcome of the wait for the process is the outcome of the kill,
/// whatever becomes of the tasks.
pub proof fn law_outcome_is_kept(
    p: OwnedProcess,
    pre: Killing,
    event: KillEvent,
    post: Killing,
    action: KillAction,
    outcome: Result<(), EmulatorError>,
)
    requires
        p.kill_step(pre, event, post, action),
        kept(pre) == Some(outcome),
    ensures
        kept(post) == Some(outcome) || action == KillAction::Done(outcome),
{
}

/// A kill that is over at the signal, or at the end of the process, succeeds
/// if and only if the process has exited.
pub proof fn law_kill_succeeds_on_exit(
    p: OwnedProcess,
    pre: Killing,
    event: KillEvent,
    post: Killing,
    res: Result<(), EmulatorError>,
)
    requires
        p.kill_step(pre, event, post, KillAction::Done(res)),
        kept(pre) is None,
    ensures
        res is Ok <==> event is Exited,
{
}

/// How many steps a kill can still take.
pub open spec fn steps_left(state: Killing) -> nat {
    match state {
        Killing::Signal => 5,
        Killing::Wait => 4,
        Killing::Shutdown(_) => 3,
        Killing::JoinStdout(_) => 2,
        Killing::JoinStderr(_) => 1,
        Killing::Ended => 0,
    }
}

/// A kill is over after five steps at most, and it is over when and only when
/// nothing is left to do.
pub proof fn law_kill_ends(
    p: OwnedProcess,
    pre: Killing,
    event: KillEvent,
    post: Killing,
    action: KillAction,
)
    requires
        p.kill_step(pre, event, post, action),
    ensures
        steps_left(post) < steps_left(pre),
        post is Ended <==> action is Done,
{
}

/// Every line of the output is logged as the record that it makes, and reading
/// goes on; the end of the output and the word to end are the end; output that
/// cannot be read is a failure with its reason.
pub proof fn law_output_is_forwarded(
    event: ForwardEvent,
    res: ForwardAction,
    line: &str,
    record: (LogLevel, &str),
)
    requires
        call_ensures(forward_step, (event,), res),
        call_ensures(log_emulator_line, (line,), record),
    ensures
        event is Shutdown || event is Eof <==> res is Exit,
        event matches ForwardEvent::ReadFailed(e) ==> res == ForwardAction::Fail(e),
        event matches ForwardEvent::Line(read) ==> (read@ == line@ ==> (
        res matches ForwardAction::Log(level, text) && level == record.0 && text@ == record.1@)),
{
}

/// A kill begins with a signal, to the whole tree of processes where there is
/// one, else to the process alone. Once it is sent the process is waited for; a
/// signal that fails is the end.
pub proof fn law_kill_signals_and_waits(
    p: OwnedProcess,
    begun: (Killing, KillAction),
    e: String,
    signalled: (Killing, KillAction),
    not_signalled: (Killing, KillAction),
)
    requires
        call_ensures(OwnedProcess::kill_owned_process, (&p,), begun),
        call_ensures(OwnedProcess::kill_next, (&p, begun.0, KillEvent::Signalled), signalled),
        call_ensures(
            OwnedProcess::kill_next,
            (&p, begun.0, KillEvent::SignalFailed(e)),
            not_signalled,
        ),
    ensures
        begun.0 is Signal,
        p.tree ==> begun.1 is SignalTree,
        !p.tree ==> begun.1 is SignalChild,
        signalled.0 is Wait && signalled.1 is Wait,
        not_signalled.0 is Ended,
        not_signalled.1 == KillAction::Done(Err(EmulatorError::EmulatorKillFailed(e))),
{
}

/// Once the process has been waited for, the tasks that read its output are told
/// to end, where they can be, and then each that there is is waited for, that
/// for standard output first. Then the kill is over, with the outcome of the
/// wait for the process.
pub proof fn law_tasks_are_cleaned_up(
    p: OwnedProcess,
    state: Killing,
    event: KillEvent,
    outcome: Result<(), EmulatorError>,
    res: (Killing, KillAction),
)
    requires
        kill_expects(state, event),
        call_ensures(OwnedProcess::kill_next, (&p, state, event), res),
        !(state is Signal),
        state is Wait && event is Exited ==> outcome == Ok::<(), EmulatorError>(()),
        event matches KillEvent::WaitFailed(e) ==> outcome == Err::<(), EmulatorError>(
            EmulatorError::EmulatorKillFailed(e),
        ),
        state matches Killing::Shutdown(o) ==> outcome == o,
        state matches Killing::JoinStdout(o) ==> outcome == o,
        state matches Killing::JoinStderr(o) ==> outcome == o,
    ensures
        ({
            let tell = state is Wait && p.shutdown;
            let first = !tell && p.stdout_task && (state is Wait || state is Shutdown);
            let second = !tell && !first && p.stderr_task && !(state is JoinStderr);
            &&& tell ==> res.0 == Killing::Shutdown(outcome) && res.1 is SendShutdown
            &&& first ==> res.0 == Killing::JoinStdout(outcome) && res.1 is JoinStdout
            &&& second ==> res.0 == Killing::JoinStderr(outcome) && res.1 is JoinStderr
            &&& !tell && !first && !second ==> res.0 is Ended && res.1 == KillAction::Done(outcome)
        }),
{
}

} // verus!
