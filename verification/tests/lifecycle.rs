use sentinel_rs::dispatcher::{Dispatcher, WorkerStep};
use sentinel_rs::invocation::{parse_invocation, Invocation};
use sentinel_rs::lifecycle::{
    classify, fault_notification, finished_notification, started_notification,
    terminal_notification, Orchestrator, Phase, EXIT_RUN_FAILED, EXIT_SIGNALED, TAIL_LIMIT,
};
use sentinel_rs::relay::RelayFault;
use sentinel_rs::runner::{assemble, Capture, ExecutionResult, RunFault, Stream};

fn exited(code: i32, out: &[u8], err: &[u8]) -> Result<ExecutionResult, RunFault> {
    assemble(Ok(Some(code)), Capture::Bytes(out.to_vec()), Capture::Bytes(err.to_vec()))
}

fn drain(dispatcher: &mut Dispatcher) -> Vec<String> {
    let mut seen = Vec::new();
    loop {
        match dispatcher.next_step() {
            WorkerStep::Deliver(message) => seen.push(message),
            WorkerStep::Stop => return seen,
            WorkerStep::Idle => panic!("no shutdown was asked for"),
        }
    }
}

fn supervise(words: &[&str], outcome: &Result<ExecutionResult, RunFault>) -> (i32, Vec<String>, Phase) {
    let args: Vec<String> = words.iter().map(|w| w.to_string()).collect();
    let command = match parse_invocation(&args) {
        Invocation::Run(command) => command,
        other => panic!("not a command: {:?}", other),
    };
    let mut dispatcher = Dispatcher::new();
    let mut run = Orchestrator::new(command);
    assert_eq!(run.current_phase(), Phase::Idle);
    run.start(&mut dispatcher);
    assert_eq!(run.current_phase(), Phase::Started);
    assert!(!dispatcher.is_closing());
    assert_eq!(dispatcher.pending_len(), 1);
    let code = run.finish(&mut dispatcher, outcome);
    assert!(dispatcher.is_closing());
    (code, drain(&mut dispatcher), run.current_phase())
}

#[test]
fn success_sends_start_and_finish_notifications() {
    let (code, sent, phase) = supervise(&["--", "true"], &exited(0, b"", b""));
    assert_eq!(code, 0);
    assert_eq!(phase, Phase::Completed);
    assert_eq!(
        sent,
        vec![
            "Started\ntrue".to_string(),
            "Finished successfully with exit code 0.\nStdout:\n\nStderr:\n".to_string(),
        ]
    );
}

#[test]
fn failure_propagates_exit_code_and_sends_notifications() {
    let (code, sent, phase) = supervise(&["--", "exit", "101"], &exited(101, b"", b""));
    assert_eq!(code, 101);
    assert_eq!(phase, Phase::Failed(101));
    assert_eq!(
        sent,
        vec![
            "Started\nexit 101".to_string(),
            "Failed with exit code: 101.\nStdout:\n\nStderr:\n".to_string(),
        ]
    );
}

#[test]
fn spawn_failure_exits_1() {
    let outcome = Err(RunFault::Spawn("No such file or directory (os error 2)".to_string()));
    let (code, sent, phase) = supervise(&["--", "true"], &outcome);
    assert_eq!(code, 1);
    assert_eq!(phase, Phase::SpawnFailed);
    assert_eq!(
        sent,
        vec![
            "Started\ntrue".to_string(),
            "Failed to execute command: Failed to run bash command 'true': \
No such file or directory (os error 2)"
                .to_string(),
        ]
    );
}

#[test]
fn telegram_failure_does_not_change_exit_code() {
    let outcome = exited(0, b"", b"");
    let mut dispatcher = Dispatcher::new();
    let mut run = Orchestrator::new("true".to_string());
    run.start(&mut dispatcher);
    let first = dispatcher.next_step();
    assert!(matches!(first, WorkerStep::Deliver(ref m) if m == "Started\ntrue"));
    let report = dispatcher.settle(Err("connection refused".to_string()));
    assert_eq!(report, Some("Failed to send telegram message: connection refused".to_string()));
    let code = run.finish(&mut dispatcher, &outcome);
    assert_eq!(code, 0);
    let second = dispatcher.next_step();
    assert!(matches!(second, WorkerStep::Deliver(ref m) if m.starts_with("Finished successfully")));
    assert!(dispatcher.settle(Err("connection refused".to_string())).is_some());
    assert!(matches!(dispatcher.next_step(), WorkerStep::Stop));
    assert_eq!(run.current_phase(), Phase::Completed);
}

#[test]
fn run_enqueues_two_notifications_whatever_the_output() {
    let big = vec![b'x'; 1_000_000];
    let (code, sent, _) = supervise(&["yes"], &exited(3, &big, &big));
    assert_eq!(code, 3);
    assert_eq!(sent.len(), 2);
    assert_eq!(sent[0], "Started\nyes");
    let tail = "x".repeat(1500);
    assert_eq!(
        sent[1],
        format!(
            "Failed with exit code: 3.\nStdout:\n… (truncated, showing last 1500 bytes)\n{tail}\nStderr:\n… (truncated, showing last 1500 bytes)\n{tail}"
        )
    );
}

#[test]
fn signal_ends_with_its_own_code() {
    let outcome = assemble(Ok(None), Capture::Bytes(b"half".to_vec()), Capture::Bytes(Vec::new()));
    let (code, sent, phase) = supervise(&["sleep", "100"], &outcome);
    assert_eq!(code, 128);
    assert_eq!(code, EXIT_SIGNALED);
    assert_eq!(phase, Phase::Signaled);
    assert_eq!(sent[0], "Started\nsleep 100");
    assert_eq!(sent[1], "Process terminated by signal.\nStdout:\nhalf\nStderr:\n");
    assert_eq!(sent.len(), 2);
}

#[test]
fn relay_fault_aborts_the_run() {
    let outcome = assemble(Ok(Some(0)), Capture::Faulted(RelayFault::Overrun), Capture::Lost);
    let (code, sent, phase) = supervise(&["cat"], &outcome);
    assert_eq!(code, EXIT_RUN_FAILED);
    assert_eq!(code, 1);
    assert_eq!(phase, Phase::Aborted);
    assert_eq!(
        sent,
        vec![
            "Started\ncat".to_string(),
            "Failed to execute command: Failed to run bash command 'cat': Failed to capture stderr"
                .to_string(),
        ]
    );
}

#[test]
fn classify_follows_the_exit_disposition() {
    assert_eq!(classify(&exited(0, b"", b"")), Phase::Completed);
    assert_eq!(classify(&exited(7, b"", b"")), Phase::Failed(7));
    assert_eq!(classify(&exited(-1, b"", b"")), Phase::Failed(-1));
    assert_eq!(classify(&exited(255, b"", b"")), Phase::Failed(255));
    let killed = assemble(Ok(None), Capture::Bytes(Vec::new()), Capture::Bytes(Vec::new()));
    assert_eq!(classify(&killed), Phase::Signaled);
    assert_eq!(classify(&Err(RunFault::Spawn("x".to_string()))), Phase::SpawnFailed);
    assert_eq!(classify(&Err(RunFault::Wait("x".to_string()))), Phase::Aborted);
    assert_eq!(classify(&Err(RunFault::Lost(Stream::Stdout))), Phase::Aborted);
}

#[test]
fn phases_name_their_exit_codes() {
    assert_eq!(Phase::Idle.exit_code(), None);
    assert_eq!(Phase::Started.exit_code(), None);
    assert_eq!(Phase::Completed.exit_code(), Some(0));
    assert_eq!(Phase::Failed(7).exit_code(), Some(7));
    assert_eq!(Phase::Failed(-3).exit_code(), Some(-3));
    assert_eq!(Phase::Signaled.exit_code(), Some(128));
    assert_eq!(Phase::SpawnFailed.exit_code(), Some(1));
    assert_eq!(Phase::Aborted.exit_code(), Some(1));
    assert_eq!(TAIL_LIMIT, 1500);
}

#[test]
fn started_notification_names_the_command() {
    assert_eq!(started_notification("echo hello"), "Started\necho hello");
    assert_eq!(started_notification(""), "Started\n");
}

#[test]
fn finished_notification_shows_both_tails() {
    let result = ExecutionResult::from_status(Some(0), b"out".to_vec(), b"err".to_vec());
    assert_eq!(
        finished_notification(&result),
        "Finished successfully with exit code 0.\nStdout:\nout\nStderr:\nerr"
    );
    let result = ExecutionResult::from_status(Some(7), b"o\n".to_vec(), vec![0x66, 0xff, 0x6f]);
    assert_eq!(
        finished_notification(&result),
        "Failed with exit code: 7.\nStdout:\no\n\nStderr:\nf\u{fffd}o"
    );
    let result = ExecutionResult::from_status(Some(-2), Vec::new(), Vec::new());
    assert_eq!(finished_notification(&result), "Failed with exit code: -2.\nStdout:\n\nStderr:\n");
    let result = ExecutionResult::from_status(None, Vec::new(), b"killed".to_vec());
    assert_eq!(
        finished_notification(&result),
        "Process terminated by signal.\nStdout:\n\nStderr:\nkilled"
    );
}

#[test]
fn finished_notification_cuts_at_the_limit() {
    let mut out = vec![b'a'; 1500];
    let whole = ExecutionResult::from_status(Some(0), out.clone(), Vec::new());
    assert_eq!(
        finished_notification(&whole),
        format!("Finished successfully with exit code 0.\nStdout:\n{}\nStderr:\n", "a".repeat(1500))
    );
    out.insert(0, b'b');
    let cut = ExecutionResult::from_status(Some(0), out, Vec::new());
    assert_eq!(
        finished_notification(&cut),
        format!(
            "Finished successfully with exit code 0.\nStdout:\n… (truncated, showing last 1500 bytes)\n{}\nStderr:\n",
            "a".repeat(1500)
        )
    );
}

#[test]
fn fault_notification_names_command_and_fault() {
    let fault = RunFault::Wait("interrupted".to_string());
    assert_eq!(
        fault_notification("make all", &fault),
        "Failed to execute command: Failed to run bash command 'make all': interrupted"
    );
    let io = std::io::Error::new(std::io::ErrorKind::Other, "disk on fire");
    let fault = RunFault::Relay(Stream::Stderr, RelayFault::Read(io));
    assert_eq!(
        terminal_notification("make", &Err(fault)),
        "Failed to execute command: Failed to run bash command 'make': disk on fire"
    );
}

#[test]
fn terminal_notification_follows_the_outcome() {
    assert_eq!(
        terminal_notification("true", &exited(0, b"done\n", b"")),
        "Finished successfully with exit code 0.\nStdout:\ndone\n\nStderr:\n"
    );
    assert_eq!(
        terminal_notification("true", &Err(RunFault::Lost(Stream::Stdout))),
        "Failed to execute command: Failed to run bash command 'true': Failed to capture stdout"
    );
}

#[test]
fn orchestrator_keeps_its_command() {
    let run = Orchestrator::new("ls -la".to_string());
    assert_eq!(run.command_line(), "ls -la");
    assert_eq!(run.current_phase(), Phase::Idle);
}
