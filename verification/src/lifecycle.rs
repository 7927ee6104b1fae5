//! The course of one supervised run: announce the start, take the outcome of
//! the run, announce the end, and name the exit code.

use crate::dispatcher::Dispatcher;
use crate::runner::{failure_line, failure_text, ExecutionResult, RunFault};
use crate::tail::{tail_bytes, tail_text};
use crate::text::{decimal_text, push_signed};
use vstd::prelude::*;
use vstd::string::*;

verus! {

/// How many bytes of each captured stream a notification shows at most.
pub const TAIL_LIMIT: usize = 1500;

/// The exit code where the run gave no result.
pub const EXIT_RUN_FAILED: i32 = 1;

/// The exit code where a signal ended the child.
pub const EXIT_SIGNALED: i32 = 128;

/// Where a run stands.
#[derive(Debug, Clone, Copy, PartialEq, Eq, Structural)]
pub enum Phase {
    /// Nothing was announced yet.
    Idle,
    /// The start was announced and the command runs.
    Started,
    /// The child exited with code zero.
    Completed,
    /// The child exited with this code, which is not zero.
    Failed(i32),
    /// A signal ended the child.
    Signaled,
    /// The child could not be created.
    SpawnFailed,
    /// The child ran, but waiting for it or draining its output failed.
    Aborted,
}

/// The notification that announces the start of `command`.
pub open spec fn started_text(command: Seq<char>) -> Seq<char> {
    "Started\n"@ + command
}

/// The part of a notification that shows the tails of both streams.
pub open spec fn streams_text(out: Seq<u8>, err: Seq<u8>) -> Seq<char> {
    "\nStdout:\n"@ + tail_text(out, TAIL_LIMIT as nat) + "\nStderr:\n"@ + tail_text(
        err,
        TAIL_LIMIT as nat,
    )
}

/// The first line of the notification for a child that ended with `code`, or
/// by a signal where there is none.
pub open spec fn verdict_text(code: Option<i32>) -> Seq<char> {
    match code {
        Some(n) => if n == 0 {
            "Finished successfully with exit code 0."@
        } else {
            "Failed with exit code: "@ + decimal_text(n as int) + "."@
        },
        None => "Process terminated by signal."@,
    }
}

/// The notification for a child that ended: the verdict, then the tails.
pub open spec fn finished_text(code: Option<i32>, out: Seq<u8>, err: Seq<u8>) -> Seq<char> {
    verdict_text(code) + streams_text(out, err)
}

/// The notification for a run of `command` that gave no result.
pub open spec fn fault_text(command: Seq<char>, detail: Seq<char>) -> Seq<char> {
    "Failed to execute command: "@ + failure_text(command, detail)
}

/// Whether `text` is the notification that ends a run of `command` with
/// `outcome`. For a failed read or write the detail is the error's own text,
/// which is not fixed here.
pub open spec fn is_terminal_text(
    text: Seq<char>,
    command: Seq<char>,
    outcome: Result<ExecutionResult, RunFault>,
) -> bool {
    match outcome {
        Ok(result) => text == finished_text(result.code(), result.out(), result.err()),
        Err(fault) => match fault.known_detail() {
            Some(detail) => text == fault_text(command, detail),
            None => exists|detail: Seq<char>| text == fault_text(command, detail),
        },
    }
}

/// The phase that a run ends in.
pub open spec fn phase_of(outcome: Result<ExecutionResult, RunFault>) -> Phase {
    match outcome {
        Ok(result) => match result.code() {
            Some(n) => if n == 0 {
                Phase::Completed
            } else {
                Phase::Failed(n)
            },
            None => Phase::Signaled,
        },
        Err(fault) => if fault is Spawn {
            Phase::SpawnFailed
        } else {
            Phase::Aborted
        },
    }
}

/// The exit code that belongs to a phase: the child's own code where it
/// exited, a fixed code each for a signal and for a run without a result.
/// A run that has not ended has none.
pub open spec fn exit_code_of(phase: Phase) -> Option<i32> {
    match phase {
        Phase::Idle => None,
        Phase::Started => None,
        Phase::Completed => Some(0i32),
        Phase::Failed(n) => Some(n),
        Phase::Signaled => Some(EXIT_SIGNALED),
        Phase::SpawnFailed => Some(EXIT_RUN_FAILED),
        Phase::Aborted => Some(EXIT_RUN_FAILED),
    }
}

impl Phase {
    /// Whether the run has ended.
    pub open spec fn is_terminal(&self) -> bool {
        !(self is Idle || self is Started)
    }

    /// The exit code that belongs to this phase.
    pub fn exit_code(&self) -> (code: Option<i32>)
        ensures
            code == exit_code_of(*self),
            code is Some <==> self.is_terminal(),
    {
        match self {
            Phase::Idle => None,
            Phase::Started => None,
            Phase::Completed => Some(0),
            Phase::Failed(n) => Some(*n),
            Phase::Signaled => Some(EXIT_SIGNALED),
            Phase::SpawnFailed => Some(EXIT_RUN_FAILED),
            Phase::Aborted => Some(EXIT_RUN_FAILED),
        }
    }
}

/// The phase that a run with `outcome` ends in.
pub fn classify(outcome: &Result<ExecutionResult, RunFault>) -> (phase: Phase)
    ensures
        phase == phase_of(*outcome),
        phase.is_terminal(),
{
    match outcome {
        Ok(result) => match result.exit_code() {
            Some(n) => if n == 0 {
                Phase::Completed
            } else {
                Phase::Failed(n)
            },
            None => Phase::Signaled,
        },
        Err(fault) => if fault.is_spawn() {
            Phase::SpawnFailed
        } else {
            Phase::Aborted
        },
    }
}

/// The notification that announces the start of `command`.
pub fn started_notification(command: &str) -> (text: String)
    ensures
        text@ == started_text(command@),
{
    let mut text = String::from_str("Started\n");
    text.append(command);
    text
}

/// The notification for a child that ended: how it ended, then the tails of
/// what it wrote, each of at most `TAIL_LIMIT` bytes.
pub fn finished_notification(result: &ExecutionResult) -> (text: String)
    ensures
        text@ == finished_text(result.code(), result.out(), result.err()),
{
    let mut text = match result.exit_code() {
        Some(n) => if n == 0 {
            String::from_str("Finished successfully with exit code 0.")
        } else {
            let mut head = String::from_str("Failed with exit code: ");
            push_signed(&mut head, n as i64);
            head.append(".");
            head
        },
        None => String::from_str("Process terminated by signal."),
    };
    let out = tail_bytes(result.stdout(), TAIL_LIMIT);
    let err = tail_bytes(result.stderr(), TAIL_LIMIT);
    text.append("\nStdout:\n");
    text.append(out.as_str());
    text.append("\nStderr:\n");
    text.append(err.as_str());
    text
}

/// The notification for a run of `command` that `fault` ended.
pub fn fault_notification(command: &str, fault: &RunFault) -> (text: String)
    ensures
        is_terminal_text(text@, command@, Err(*fault)),
{
    let detail = fault.describe();
    let line = failure_line(command, detail.as_str());
    let mut text = String::from_str("Failed to execute command: ");
    text.append(line.as_str());
    assert(text@ =~= fault_text(command@, detail@));
    text
}

/// The notification that ends a run of `command` with `outcome`.
pub fn terminal_notification(command: &str, outcome: &Result<ExecutionResult, RunFault>) -> (text:
    String)
    ensures
        is_terminal_text(text@, command@, *outcome),
{
    match outcome {
        Ok(result) => finished_notification(result),
        Err(fault) => fault_notification(command, fault),
    }
}

/// One supervised run, from the announcement of its start to its exit code.
pub struct Orchestrator {
    command: String,
    phase: Phase,
    terminal: Ghost<Seq<char>>,
}

impl Orchestrator {
    /// The command line of this run.
    pub closed spec fn command(&self) -> Seq<char> {
        self.command@
    }

    /// Where the run stands.
    pub closed spec fn phase(&self) -> Phase {
        self.phase
    }

    /// The notifications that this run has enqueued, in order: none before the
    /// start, the announcement of the start while the command runs, and the
    /// announcement of the end behind it once the run has ended.
    pub closed spec fn sent(&self) -> Seq<Seq<char>> {
        match self.phase {
            Phase::Idle => Seq::empty(),
            Phase::Started => seq![started_text(self.command@)],
            _ => seq![started_text(self.command@), self.terminal@],
        }
    }

    /// A run of `command` of which nothing was announced yet.
    pub fn new(command: String) -> (run: Self)
        ensures
            run.command() == command@,
            run.phase() == Phase::Idle,
            run.sent() == Seq::<Seq<char>>::empty(),
    {
        Orchestrator { command, phase: Phase::Idle, terminal: Ghost(Seq::empty()) }
    }

    /// The command line of this run.
    pub fn command_line(&self) -> (command: &str)
        ensures
            command@ == self.command(),
    {
        self.command.as_str()
    }

    /// Where the run stands.
    pub fn current_phase(&self) -> (phase: Phase)
        ensures
            phase == self.phase(),
    {
        self.phase
    }

    /// Announces the start: enqueues the notification that names the command.
    pub fn start(&mut self, dispatcher: &mut Dispatcher)
        requires
            old(self).phase() == Phase::Idle,
            !old(dispatcher).closing(),
        ensures
            final(self).phase() == Phase::Started,
            final(self).command() == old(self).command(),
            final(self).sent() == seq![started_text(old(self).command())],
            final(dispatcher).accepted() == old(dispatcher).accepted() + final(self).sent(),
            final(dispatcher).attempted() == old(dispatcher).attempted(),
            !final(dispatcher).closing(),
    {
        let text = started_notification(self.command.as_str());
        dispatcher.enqueue(text);
        self.phase = Phase::Started;
    }

    /// Takes the outcome of the run: enqueues the one notification that ends
    /// it, asks the dispatcher to shut down, and returns the exit code. With
    /// that the run has enqueued exactly two notifications, the start first,
    /// whatever the outcome is and however much the child wrote. How the
    /// deliveries go has no part in the exit code.
    pub fn finish(
        &mut self,
        dispatcher: &mut Dispatcher,
        outcome: &Result<ExecutionResult, RunFault>,
    ) -> (code: i32)
        requires
            old(self).phase() == Phase::Started,
            !old(dispatcher).closing(),
        ensures
            final(self).phase() == phase_of(*outcome),
            final(self).command() == old(self).command(),
            Some(code) == exit_code_of(phase_of(*outcome)),
            final(self).sent().len() == 2,
            final(self).sent()[0] == started_text(old(self).command()),
            is_terminal_text(final(self).sent()[1], old(self).command(), *outcome),
            final(self).sent().take(1) == old(self).sent(),
            final(dispatcher).accepted() == old(dispatcher).accepted().push(final(self).sent()[1]),
            final(dispatcher).attempted() == old(dispatcher).attempted(),
            final(dispatcher).closing(),
    {
        let text = terminal_notification(self.command.as_str(), outcome);
        proof {
            self.terminal@ = text@;
        }
        dispatcher.enqueue(text);
        dispatcher.shutdown();
        let phase = classify(outcome);
        self.phase = phase;
        match phase.exit_code() {
            Some(code) => code,
            None => EXIT_RUN_FAILED,
        }
    }

    /// At every point of a run its notifications are as many as its phase
    /// says, and in the order of the run: none while idle, the start alone
    /// while the command runs, the start and then one more once it has ended.
    pub proof fn lemma_notifications_follow_phase(&self)
        ensures
            self.phase() == Phase::Idle ==> self.sent().len() == 0,
            self.phase() == Phase::Started ==> self.sent() == seq![started_text(self.command())],
            self.phase().is_terminal() ==> self.sent().len() == 2 && self.sent()[0]
                == started_text(self.command()),
            self.sent().len() <= 2,
    {
    }
}

} // verus!
