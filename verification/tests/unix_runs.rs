//! Runs on Unix, with the answers of the system made up.

use std::path::PathBuf;
use std::sync::mpsc;

use nix::errno::Errno;
use nix::fcntl::FdFlag;
use nix::sys::signal::Signal;

use intercept::command::Command;
use intercept::error::RunError;
use intercept::event::{Event, ExitCode, Timestamp};
use intercept::executor::Executor;
use intercept::flags::wait_flags;
use intercept::generic::{GenericExecutor, GenericObserved, GenericRun};
use intercept::unix::{
    wait, Change, Forked, UnixExecutor, UnixObserved, UnixRun, WaitOutcome, MESSAGE_SIZE,
};

fn command() -> Command {
    Command {
        program: PathBuf::from("/usr/bin/cc"),
        args: vec!["cc".to_string(), "-c".to_string(), "main.c".to_string()],
        envs: vec![("PATH".to_string(), "/usr/bin".to_string())],
    }
}

fn time() -> Timestamp {
    Timestamp { seconds: 1_500_000_000, nanoseconds: 7 }
}

fn nix_error() -> nix::Error {
    nix::Error::Sys(Errno::ENOENT)
}

fn io_error() -> std::io::Error {
    std::io::Error::new(std::io::ErrorKind::Other, "broken")
}

fn drive(answers: Vec<UnixObserved>) -> (UnixRun, Vec<Event>) {
    let (tx, rx) = mpsc::channel();
    let mut sut = UnixExecutor::new(tx);
    let mut run = UnixRun::new(command(), true);
    for answer in answers {
        assert!(run.awaits(&answer));
        run = sut.run(run, answer);
    }
    drop(sut);
    (run, rx.iter().collect())
}

fn until_fork() -> Vec<UnixObserved> {
    vec![
        UnixObserved::Directory(Ok(PathBuf::from("/home/build"))),
        UnixObserved::Pipe(Ok((3, 4))),
    ]
}

fn until_wait() -> Vec<UnixObserved> {
    let mut answers = until_fork();
    answers.push(UnixObserved::Forked(Ok(Forked::Parent { child: 77 })));
    answers.push(UnixObserved::Closed);
    answers.push(UnixObserved::Read { buffer: vec![0; MESSAGE_SIZE], count: Ok(0) });
    answers.push(UnixObserved::Closed);
    answers.push(UnixObserved::Parent(5));
    answers
}

fn until_execute() -> Vec<UnixObserved> {
    let mut answers = until_fork();
    answers.push(UnixObserved::Forked(Ok(Forked::Child)));
    answers.push(UnixObserved::Closed);
    answers.push(UnixObserved::Flags(Ok(0)));
    answers.push(UnixObserved::FlagsSet(Ok(())));
    answers
}

fn result(run: UnixRun) -> Result<ExitCode, RunError> {
    match run {
        UnixRun::Done { result } => result,
        other => panic!("not over: {:?}", other),
    }
}

#[test]
fn exit_is_reported_after_creation() {
    let mut answers = until_wait();
    answers.push(UnixObserved::Waited(Ok(WaitOutcome::Exited { pid: 77, code: 3 })));
    let (run, events) = drive(answers);
    assert_eq!(3, result(run).unwrap());
    assert_eq!(2, events.len());
    match &events[0] {
        Event::Created { pid, ppid, cwd, program, args, when } => {
            assert_eq!(77, *pid);
            assert_eq!(5, *ppid);
            assert_eq!(&PathBuf::from("/home/build"), cwd);
            assert_eq!(&PathBuf::from("/usr/bin/cc"), program);
            assert_eq!(&command().args, args);
            assert!(when.seconds > 1_500_000_000);
            assert!(when.nanoseconds < 2_000_000_000);
        }
        other => panic!("not the start: {:?}", other),
    }
    assert!(matches!(events[1], Event::TerminatedNormally { pid: 77, code: 3, .. }));
}

#[test]
fn every_change_is_reported_in_order() {
    let mut answers = until_wait();
    for outcome in [
        WaitOutcome::Stopped { pid: 77, signal: Signal::SIGTSTP },
        WaitOutcome::Other,
        WaitOutcome::Continued { pid: 77 },
        WaitOutcome::Signaled { pid: 77, signal: Signal::SIGSEGV, core_dumped: true },
    ] {
        answers.push(UnixObserved::Waited(Ok(outcome)));
    }
    let (run, events) = drive(answers);
    assert_eq!(127, result(run).unwrap());
    assert_eq!(4, events.len());
    assert!(events.iter().all(|event| event.pid() == 77));
    assert!(matches!(&events[0], Event::Created { .. }));
    assert!(matches!(&events[1], Event::Stopped { signal, .. } if signal == "SIGTSTP"));
    assert!(matches!(&events[2], Event::Continued { .. }));
    assert!(matches!(&events[3], Event::TerminatedAbnormally { signal, .. } if signal == "SIGSEGV"));
}

#[test]
fn suspended_process_is_waited_for_again() {
    let stopped = Change::Stopped { pid: 8, signal: "SIGSTOP".to_string() };
    let (run, event) = wait(9, wait_flags(true), stopped, time());
    assert!(matches!(run, UnixRun::Wait { pid: 8, options } if options == wait_flags(true)));
    match event {
        Some(Event::Stopped { pid, signal, when }) => {
            assert_eq!(8, pid);
            assert_eq!("SIGSTOP", signal);
            assert_eq!(time(), when);
        }
        other => panic!("not stopped: {:?}", other),
    }
    let (run, event) = wait(9, wait_flags(true), Change::Continued { pid: 8 }, time());
    assert!(matches!(run, UnixRun::Wait { pid: 8, options } if options == wait_flags(true)));
    assert!(matches!(event, Some(Event::Continued { pid: 8, .. })));
    let (run, event) = wait(9, wait_flags(true), Change::Other, time());
    assert!(matches!(run, UnixRun::Wait { pid: 9, options } if options == wait_flags(true)));
    assert!(event.is_none());
}

#[test]
fn ended_process_is_not_waited_for() {
    let (run, event) = wait(9, wait_flags(true), Change::Exited { pid: 9, code: -4 }, time());
    assert_eq!(-4, result(run).unwrap());
    assert!(matches!(event, Some(Event::TerminatedNormally { pid: 9, code: -4, .. })));
    let signaled = Change::Signaled { pid: 9, signal: "SIGKILL".to_string() };
    let (run, event) = wait(9, wait_flags(true), signaled, time());
    assert_eq!(127, result(run).unwrap());
    assert!(matches!(event, Some(Event::TerminatedAbnormally { pid: 9, .. })));
}

#[test]
fn failed_wait_ends_the_run_without_an_event() {
    let mut answers = until_wait();
    answers.push(UnixObserved::Waited(Err(nix_error())));
    let (run, events) = drive(answers);
    let error = result(run).unwrap_err();
    assert!(matches!(error, RunError::Wait(cause) if cause == nix_error()));
    assert_eq!("Process creation failed.", error.message());
    assert_eq!(1, events.len());
}

#[test]
fn unknown_directory_is_an_error() {
    let (run, events) = drive(vec![UnixObserved::Directory(Err(io_error()))]);
    let error = result(run).unwrap_err();
    assert!(matches!(error, RunError::CurrentDirectory(_)));
    assert_eq!("Unable to get current working directory", error.message());
    assert!(events.is_empty());
}

#[test]
fn missing_pipe_is_an_error() {
    let mut answers = until_fork();
    answers[1] = UnixObserved::Pipe(Err(nix_error()));
    let (run, events) = drive(answers);
    let error = result(run).unwrap_err();
    assert!(matches!(error, RunError::Pipe(_)));
    assert_eq!("Unable to create pipe.", error.message());
    assert!(events.is_empty());
}

#[test]
fn failed_fork_is_an_error() {
    let mut answers = until_fork();
    answers.push(UnixObserved::Forked(Err(nix_error())));
    let (run, events) = drive(answers);
    let error = result(run).unwrap_err();
    assert!(matches!(error, RunError::Fork(_)));
    assert_eq!("Fork process failed.", error.message());
    assert!(events.is_empty());
}

#[test]
fn failed_read_is_an_error() {
    let mut answers = until_wait();
    answers.truncate(6);
    answers[4] = UnixObserved::Read { buffer: vec![0; MESSAGE_SIZE], count: Err(nix_error()) };
    let (run, events) = drive(answers);
    let error = result(run).unwrap_err();
    assert!(matches!(error, RunError::PipeRead(_)));
    assert_eq!("Read from pipe failed.", error.message());
    assert!(events.is_empty());
}

#[test]
fn message_of_the_child_is_the_error() {
    let message = RunError::NullByte.to_bytes();
    let count = message.len();
    assert_eq!(26, count);
    let mut buffer = message;
    buffer.resize(MESSAGE_SIZE, 0);
    let mut answers = until_wait();
    answers.truncate(6);
    answers[4] = UnixObserved::Read { buffer, count: Ok(count) };
    let (run, events) = drive(answers);
    let error = result(run).unwrap_err();
    assert_eq!("String contains null byte.", error.message());
    assert!(events.is_empty());
}

#[test]
fn message_that_is_no_text_is_unknown() {
    let mut buffer = vec![b'x'; MESSAGE_SIZE - 1];
    buffer.push(0xc3);
    let error = RunError::Child { buffer, count: MESSAGE_SIZE };
    assert_eq!("Unknown reason.", error.message());
}

#[test]
fn parent_closes_the_write_end_first() {
    let (run, _) = drive(until_wait().into_iter().take(3).collect());
    assert!(matches!(run, UnixRun::CloseWriteEnd { child: 77, read_fd: 3, write_fd: 4, .. }));
    let (run, _) = drive(until_wait().into_iter().take(4).collect());
    assert!(matches!(run, UnixRun::ReadPipe { child: 77, read_fd: 3, size: 1024, .. }));
    let (run, _) = drive(until_wait().into_iter().take(5).collect());
    assert!(matches!(run, UnixRun::CloseReadEnd { read_fd: 3, spawned: Ok(77), .. }));
    let (run, _) = drive(until_wait().into_iter().take(6).collect());
    assert!(matches!(run, UnixRun::GetParent { child: 77, .. }));
}

#[test]
fn child_tells_the_parent_and_exits() {
    let (run, _) = drive(until_execute().into_iter().take(3).collect());
    assert!(matches!(run, UnixRun::CloseReadEndInChild { read_fd: 3, write_fd: 4, .. }));
    let (run, _) = drive(until_execute().into_iter().take(5).collect());
    assert!(
        matches!(run, UnixRun::SetFlags { write_fd: 4, flags, .. } if flags == FdFlag::FD_CLOEXEC)
    );
    let (run, _) = drive(until_execute());
    match run {
        UnixRun::Execute { call, write_fd } => {
            assert_eq!("/usr/bin/cc", call.program);
            assert_eq!(command().args, call.args);
            assert_eq!(vec!["PATH=/usr/bin".to_string()], call.envs);
            assert_eq!(4, write_fd);
        }
        other => panic!("nothing to execute: {:?}", other),
    }

    let mut answers = until_execute();
    answers.push(UnixObserved::Executed(Err(nix_error())));
    let (run, events) = drive(answers);
    match run {
        UnixRun::WriteMessage { write_fd, message } => {
            assert_eq!(4, write_fd);
            assert_eq!(b"ENOENT: No such file or directory".to_vec(), message);
        }
        other => panic!("no message: {:?}", other),
    }
    assert!(events.is_empty());

    let mut answers = until_execute();
    answers.push(UnixObserved::Executed(Err(nix_error())));
    answers.push(UnixObserved::Written);
    let (run, events) = drive(answers);
    assert!(matches!(run, UnixRun::Exit { status: 1 }));
    assert!(!run.awaits(&UnixObserved::Written));
    assert!(events.is_empty());
}

#[test]
fn child_that_comes_back_fails() {
    let mut answers = until_execute();
    answers.push(UnixObserved::Executed(Ok(())));
    let (run, events) = drive(answers);
    let error = result(run).unwrap_err();
    assert!(matches!(error, RunError::Execved));
    assert_eq!("Never gonna happen", error.message());
    assert!(events.is_empty());
}

#[test]
fn child_panics_if_the_flags_cannot_be_set() {
    let mut answers = until_execute();
    answers.truncate(5);
    answers[4] = UnixObserved::Flags(Err(nix_error()));
    let (run, _) = drive(answers);
    assert!(matches!(run, UnixRun::Panic { cause } if cause == nix_error()));

    let mut answers = until_execute();
    answers[5] = UnixObserved::FlagsSet(Err(nix_error()));
    let (run, _) = drive(answers);
    assert!(matches!(run, UnixRun::Panic { .. }));
}

#[test]
fn run_that_is_over_awaits_nothing() {
    let mut answers = until_wait();
    answers.push(UnixObserved::Waited(Ok(WaitOutcome::Exited { pid: 77, code: 0 })));
    let (run, _) = drive(answers);
    assert!(!run.awaits(&UnixObserved::Closed));
    assert!(!run.awaits(&UnixObserved::Waited(Ok(WaitOutcome::Other))));
    assert!(!UnixRun::new(command(), true).awaits(&UnixObserved::Closed));
}

#[test]
fn nobody_has_to_listen() {
    let (tx, rx) = mpsc::channel();
    drop(rx);
    let mut sut = UnixExecutor::new(tx);
    sut.report(Event::Continued { pid: 1, when: time() });
    let mut run = UnixRun::new(command(), true);
    for answer in until_wait() {
        run = sut.run(run, answer);
    }
    assert!(matches!(run, UnixRun::Wait { pid: 77, .. }));
}

#[test]
fn negative_identifier_wraps() {
    let (_, event) = wait(-1, wait_flags(true), Change::Continued { pid: -1 }, time());
    assert_eq!(u32::MAX, event.unwrap().pid());
}

#[test]
fn step_has_the_given_time() {
    let waiting = UnixRun::Wait { pid: 2, options: wait_flags(true) };
    let exited = UnixObserved::Waited(Ok(WaitOutcome::Exited { pid: 2, code: 0 }));
    match waiting.advance(exited, time()) {
        (UnixRun::Done { result: Ok(0) }, Some(Event::TerminatedNormally { when, .. })) => {
            assert_eq!(time(), when);
        }
        other => panic!("not the end: {:?}", other),
    }
}

#[test]
fn executors_report_alike() {
    let mut answers = until_wait();
    answers.push(UnixObserved::Waited(Ok(WaitOutcome::Exited { pid: 77, code: 3 })));
    let (run, on_unix) = drive(answers);
    let (tx, rx) = mpsc::channel();
    let mut sut = GenericExecutor::new(tx);
    let mut generic_run = GenericRun::new(command());
    for answer in [
        GenericObserved::Directory(Ok(PathBuf::from("/home/build"))),
        GenericObserved::Spawned(Ok(88)),
        GenericObserved::Parent(5),
        GenericObserved::Waited(Ok(Some(3))),
    ] {
        generic_run = sut.run(generic_run, answer);
    }
    drop(sut);
    let generic = rx.iter().collect::<Vec<_>>();
    assert_eq!(3, result(run).unwrap());
    assert!(matches!(generic_run, GenericRun::Done { result: Ok(3) }));
    assert_eq!((2, 2), (on_unix.len(), generic.len()));
    match (&on_unix[0], &generic[0]) {
        (
            Event::Created { pid: 77, ppid, cwd, program, args, .. },
            Event::Created { pid: 88, ppid: ppid2, cwd: cwd2, program: program2, args: args2, .. },
        ) => assert_eq!((ppid, cwd, program, args), (ppid2, cwd2, program2, args2)),
        other => panic!("not alike: {:?}", other),
    }
    assert!(matches!(on_unix[1], Event::TerminatedNormally { pid: 77, code: 3, .. }));
    assert!(matches!(generic[1], Event::TerminatedNormally { pid: 88, code: 3, .. }));
}

#[test]
fn answers_with_an_event() {
    let waiting = UnixRun::Wait { pid: 77, options: wait_flags(true) };
    assert!(waiting.reports(&UnixObserved::Waited(Ok(WaitOutcome::Exited { pid: 77, code: 0 }))));
    assert!(waiting.reports(&UnixObserved::Waited(Ok(WaitOutcome::Continued { pid: 77 }))));
    assert!(!waiting.reports(&UnixObserved::Waited(Ok(WaitOutcome::Other))));
    assert!(!waiting.reports(&UnixObserved::Waited(Err(nix_error()))));
    assert!(!UnixRun::new(command(), true).reports(&until_fork()[0]));
}

#[test]
fn new_executor_sends_nothing_and_keeps_its_channel() {
    let (tx, rx) = mpsc::channel();
    let mut sut = UnixExecutor::new(tx);
    assert!(rx.try_recv().is_err());
    for pid in [6, 7] {
        sut.report(Event::Continued { pid, when: time() });
    }
    drop(sut);
    assert_eq!(vec![6, 7], rx.iter().map(|event| event.pid()).collect::<Vec<_>>());
}

#[test]
fn refused_command_is_told_and_not_executed() {
    let mut run = UnixRun::SetFlags {
        command: Command {
            program: PathBuf::from("/usr/bin/cc"),
            args: vec!["a\0b".to_string()],
            envs: vec![],
        },
        write_fd: 4,
        flags: FdFlag::FD_CLOEXEC,
    };
    let (tx, _rx) = mpsc::channel();
    let mut sut = UnixExecutor::new(tx);
    run = sut.run(run, UnixObserved::FlagsSet(Ok(())));
    match &run {
        UnixRun::WriteMessage { write_fd, message } => {
            assert_eq!(4, *write_fd);
            assert_eq!(&b"String contains null byte.".to_vec(), message);
        }
        other => panic!("not refused: {:?}", other),
    }
    assert!(!run.awaits(&UnixObserved::Executed(Ok(()))));
}

#[test]
fn wait_options_stay_the_same() {
    for stopped in [true, false] {
        let (tx, _rx) = mpsc::channel();
        let mut sut = UnixExecutor::new(tx);
        let mut run = UnixRun::new(command(), stopped);
        for answer in until_wait() {
            run = sut.run(run, answer);
        }
        for outcome in [
            WaitOutcome::Stopped { pid: 77, signal: Signal::SIGSTOP },
            WaitOutcome::Other,
            WaitOutcome::Continued { pid: 77 },
        ] {
            run = sut.run(run, UnixObserved::Waited(Ok(outcome)));
            match &run {
                UnixRun::Wait { pid: 77, options } => assert_eq!(&wait_flags(stopped), options),
                other => panic!("not waiting: {:?}", other),
            }
        }
    }
}

#[test]
fn other_status_makes_no_difference() {
    let outcomes = |with: bool| {
        let mut answers = until_wait();
        answers.push(UnixObserved::Waited(Ok(WaitOutcome::Continued { pid: 77 })));
        if with {
            answers.push(UnixObserved::Waited(Ok(WaitOutcome::Other)));
        }
        answers.push(UnixObserved::Waited(Ok(WaitOutcome::Exited { pid: 77, code: 3 })));
        let (run, events) = drive(answers);
        assert!(matches!(events[1], Event::Continued { pid: 77, .. }));
        assert!(matches!(events[2], Event::TerminatedNormally { pid: 77, code: 3, .. }));
        (result(run).unwrap(), events.len())
    };
    assert_eq!((3, 3), outcomes(false));
    assert_eq!((3, 3), outcomes(true));
}
