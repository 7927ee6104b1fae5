//! What one run of the command left behind: its exit disposition and the two
//! captured streams, or the fault that ended the run.

use crate::relay::RelayFault;
use vstd::prelude::*;
use vstd::string::*;

verus! {

/// One of the two streams of the child.
#[derive(Debug, Clone, Copy, PartialEq, Eq, Structural)]
pub enum Stream {
    /// Standard output.
    Stdout,
    /// Standard error.
    Stderr,
}

/// All that one stream of the child wrote.
#[derive(Debug)]
pub struct CapturedOutput {
    bytes: Vec<u8>,
}

impl View for CapturedOutput {
    type V = Seq<u8>;

    closed spec fn view(&self) -> Seq<u8> {
        self.bytes@
    }
}

impl CapturedOutput {
    /// Takes the bytes of a finished stream.
    pub fn new(bytes: Vec<u8>) -> (captured: Self)
        ensures
            captured@ == bytes@,
    {
        CapturedOutput { bytes }
    }

    /// The captured bytes.
    pub fn as_bytes(&self) -> (bytes: &[u8])
        ensures
            bytes@ == self@,
    {
        self.bytes.as_slice()
    }

    /// How many bytes were captured.
    pub fn len(&self) -> (n: usize)
        ensures
            n == self@.len(),
    {
        self.bytes.len()
    }
}

/// How the child ended and what it wrote. Either it exited with a code or a
/// signal ended it, never both and never neither.
#[derive(Debug)]
pub struct ExecutionResult {
    exit_code: Option<i32>,
    signaled: bool,
    stdout: CapturedOutput,
    stderr: CapturedOutput,
}

impl ExecutionResult {
    #[verifier::type_invariant]
    spec fn well_formed(&self) -> bool {
        self.signaled == (self.exit_code is None)
    }

    /// The exit code, where the child exited by itself.
    pub closed spec fn code(&self) -> Option<i32> {
        self.exit_code
    }

    /// Whether a signal ended the child.
    pub closed spec fn by_signal(&self) -> bool {
        self.signaled
    }

    /// What the child wrote to standard output.
    pub closed spec fn out(&self) -> Seq<u8> {
        self.stdout@
    }

    /// What the child wrote to standard error.
    pub closed spec fn err(&self) -> Seq<u8> {
        self.stderr@
    }

    /// The result of a child that ended with `code`, or by a signal where
    /// there is none, after writing `stdout` and `stderr`.
    pub fn from_status(code: Option<i32>, stdout: Vec<u8>, stderr: Vec<u8>) -> (result: Self)
        ensures
            result.code() == code,
            result.by_signal() == (code is None),
            result.out() == stdout@,
            result.err() == stderr@,
    {
        let signaled = code.is_none();
        ExecutionResult {
            exit_code: code,
            signaled,
            stdout: CapturedOutput::new(stdout),
            stderr: CapturedOutput::new(stderr),
        }
    }

    /// The exit code, where the child exited by itself.
    pub fn exit_code(&self) -> (code: Option<i32>)
        ensures
            code == self.code(),
            code is None == self.by_signal(),
    {
        proof {
            use_type_invariant(self);
        }
        self.exit_code
    }

    /// Whether a signal ended the child. It did exactly where there is no
    /// exit code.
    pub fn signaled(&self) -> (signaled: bool)
        ensures
            signaled == self.by_signal(),
            signaled == (self.code() is None),
    {
        proof {
            use_type_invariant(self);
        }
        self.signaled
    }

    /// What the child wrote to standard output.
    pub fn stdout(&self) -> (bytes: &[u8])
        ensures
            bytes@ == self.out(),
    {
        self.stdout.as_bytes()
    }

    /// What the child wrote to standard error.
    pub fn stderr(&self) -> (bytes: &[u8])
        ensures
            bytes@ == self.err(),
    {
        self.stderr.as_bytes()
    }
}

/// How the draining of one stream ended.
#[derive(Debug)]
pub enum Capture {
    /// The stream was read to its end.
    Bytes(Vec<u8>),
    /// The relay met a fault.
    Faulted(RelayFault),
    /// The relay ended without a result.
    Lost,
}

impl Capture {
    /// What a relay that has ended left behind: its bytes or its fault, and
    /// `Lost` where it ended without either.
    pub fn from_relay(ended: Option<Result<Vec<u8>, RelayFault>>) -> (capture: Self)
        ensures
            capture == match ended {
                Some(Ok(bytes)) => Capture::Bytes(bytes),
                Some(Err(fault)) => Capture::Faulted(fault),
                None => Capture::Lost,
            },
    {
        match ended {
            Some(Ok(bytes)) => Capture::Bytes(bytes),
            Some(Err(fault)) => Capture::Faulted(fault),
            None => Capture::Lost,
        }
    }
}

/// Why a run gave no result.
#[derive(Debug)]
pub enum RunFault {
    /// The child could not be created.
    Spawn(String),
    /// Waiting for the child failed.
    Wait(String),
    /// The relay of a stream ended without a result.
    Lost(Stream),
    /// The relay of a stream met a fault.
    Relay(Stream, RelayFault),
}

/// The outcome that `assemble` gives for a wait and two captures: the first
/// fault in the order wait, lost stdout, lost stderr, faulted stdout, faulted
/// stderr, and the status with both buffers where there is none.
pub open spec fn assembled(waited: Result<Option<i32>, String>, stdout: Capture, stderr: Capture)
    -> Result<(Option<i32>, Seq<u8>, Seq<u8>), RunFault> {
    match waited {
        Err(detail) => Err(RunFault::Wait(detail)),
        Ok(code) => match (stdout, stderr) {
            (Capture::Lost, _) => Err(RunFault::Lost(Stream::Stdout)),
            (_, Capture::Lost) => Err(RunFault::Lost(Stream::Stderr)),
            (Capture::Faulted(fault), _) => Err(RunFault::Relay(Stream::Stdout, fault)),
            (_, Capture::Faulted(fault)) => Err(RunFault::Relay(Stream::Stderr, fault)),
            (Capture::Bytes(out), Capture::Bytes(err)) => Ok((code, out@, err@)),
        },
    }
}

/// Puts the result of a run together once the child was waited for and both
/// relays have ended. A fault of the wait comes before one of a relay, a lost
/// relay before a faulted one, and standard output before standard error. An
/// exit code other than zero is no fault.
pub fn assemble(waited: Result<Option<i32>, String>, stdout: Capture, stderr: Capture) -> (res:
    Result<ExecutionResult, RunFault>)
    ensures
        match res {
            Ok(result) => assembled(waited, stdout, stderr) == Ok::<
                (Option<i32>, Seq<u8>, Seq<u8>),
                RunFault,
            >((result.code(), result.out(), result.err())) && result.by_signal() == (result.code()
                is None),
            Err(fault) => assembled(waited, stdout, stderr) == Err::<
                (Option<i32>, Seq<u8>, Seq<u8>),
                RunFault,
            >(fault),
        },
{
    let code = match waited {
        Ok(code) => code,
        Err(detail) => {
            return Err(RunFault::Wait(detail));
        },
    };
    match (stdout, stderr) {
        (Capture::Lost, _) => Err(RunFault::Lost(Stream::Stdout)),
        (_, Capture::Lost) => Err(RunFault::Lost(Stream::Stderr)),
        (Capture::Faulted(fault), _) => Err(RunFault::Relay(Stream::Stdout, fault)),
        (_, Capture::Faulted(fault)) => Err(RunFault::Relay(Stream::Stderr, fault)),
        (Capture::Bytes(out), Capture::Bytes(err)) => Ok(
            ExecutionResult::from_status(code, out, err),
        ),
    }
}

impl RunFault {
    /// The text that stands for a relay of `stream` that ended without a result.
    pub open spec fn lost_text(stream: Stream) -> Seq<char> {
        match stream {
            Stream::Stdout => "Failed to capture stdout"@,
            Stream::Stderr => "Failed to capture stderr"@,
        }
    }

    /// The detail of the fault, where this library decides it: all but the
    /// text of a failed read or write, which is the error's own.
    pub open spec fn known_detail(&self) -> Option<Seq<char>> {
        match self {
            RunFault::Spawn(detail) => Some(detail@),
            RunFault::Wait(detail) => Some(detail@),
            RunFault::Lost(stream) => Some(Self::lost_text(*stream)),
            RunFault::Relay(_, RelayFault::Overrun) => Some(RelayFault::overrun_text()),
            RunFault::Relay(_, _) => None,
        }
    }

    /// Whether the child was never created.
    pub fn is_spawn(&self) -> (spawn: bool)
        ensures
            spawn == (self is Spawn),
    {
        match self {
            RunFault::Spawn(_) => true,
            _ => false,
        }
    }

    /// A line that says what went wrong.
    pub fn describe(&self) -> (text: String)
        ensures
            self.known_detail() matches Some(detail) ==> text@ == detail,
    {
        match self {
            RunFault::Spawn(detail) => detail.clone(),
            RunFault::Wait(detail) => detail.clone(),
            RunFault::Lost(Stream::Stdout) => String::from_str("Failed to capture stdout"),
            RunFault::Lost(Stream::Stderr) => String::from_str("Failed to capture stderr"),
            RunFault::Relay(_, fault) => fault.describe(),
        }
    }
}

/// The line that reports a run of `command` that gave no result.
pub open spec fn failure_text(command: Seq<char>, detail: Seq<char>) -> Seq<char> {
    "Failed to run bash command '"@ + command + "': "@ + detail
}

/// Names the command above the detail of the fault that ended its run.
pub fn failure_line(command: &str, detail: &str) -> (line: String)
    ensures
        line@ == failure_text(command@, detail@),
{
    let mut line = String::from_str("Failed to run bash command '");
    line.append(command);
    line.append("': ");
    line.append(detail);
    line
}

} // verus!
