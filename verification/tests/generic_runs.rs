//! Runs on any platform, with the answers of the system made up.

use std::path::PathBuf;
use std::sync::mpsc;

use intercept::command::Command;
use intercept::error::RunError;
use intercept::event::{Event, ExitCode, Timestamp};
use intercept::executor::Executor;
use intercept::generic::{
    executor, get_parent_pid, wait, GenericExecutor, GenericObserved, GenericRun,
};

fn command() -> Command {
    Command {
        program: PathBuf::from("/usr/bin/cc"),
        args: vec!["cc".to_string(), "main.c".to_string()],
        envs: vec![],
    }
}

fn io_error() -> std::io::Error {
    std::io::Error::new(std::io::ErrorKind::Other, "broken")
}

fn drive(answers: Vec<GenericObserved>) -> (GenericRun, Vec<Event>) {
    let (tx, rx) = mpsc::channel();
    let mut sut = GenericExecutor::new(tx);
    let mut run = GenericRun::new(command());
    for answer in answers {
        assert!(run.awaits(&answer));
        run = sut.run(run, answer);
    }
    drop(sut);
    (run, rx.iter().collect())
}

fn until_wait() -> Vec<GenericObserved> {
    vec![
        GenericObserved::Directory(Ok(PathBuf::from("/home/build"))),
        GenericObserved::Spawned(Ok(77)),
        GenericObserved::Parent(5),
    ]
}

fn result(run: GenericRun) -> Result<ExitCode, RunError> {
    match run {
        GenericRun::Done { result } => result,
        other => panic!("not over: {:?}", other),
    }
}

fn assert_start_stop_events(expected_exit_code: i32) {
    let mut answers = until_wait();
    answers.push(GenericObserved::Waited(Ok(Some(expected_exit_code))));
    let (run, events) = drive(answers);
    assert_eq!(expected_exit_code, result(run).unwrap());
    assert_eq!(2usize, events.len());
    assert_eq!(events[0].pid(), events[1].pid());
    match &events[0] {
        Event::Created { pid, ppid, cwd, program, args, .. } => {
            assert_eq!(77, *pid);
            assert_eq!(5, *ppid);
            assert_eq!(&PathBuf::from("/home/build"), cwd);
            assert_eq!(&command().args, args);
            assert_eq!(&command().program, program);
        }
        other => panic!("not the start: {:?}", other),
    }
    match &events[1] {
        Event::TerminatedNormally { code, .. } => assert_eq!(expected_exit_code, *code),
        other => panic!("not the end: {:?}", other),
    }
}

#[test]
fn generic_success() {
    assert_start_stop_events(0);
}

#[test]
fn generic_fail() {
    assert_start_stop_events(1);
}

#[test]
fn generic_exec_failure() {
    let mut answers = until_wait();
    answers.truncate(2);
    answers[1] = GenericObserved::Spawned(Err(io_error()));
    let (run, events) = drive(answers);
    assert_eq!(0usize, events.len());
    let error = result(run).unwrap_err();
    assert!(matches!(error, RunError::Spawn { .. }));
    assert_eq!("unable to execute process: \"/usr/bin/cc\"", error.message());
}

#[test]
fn end_without_a_code_is_abnormal() {
    let mut answers = until_wait();
    answers.push(GenericObserved::Waited(Ok(None)));
    let (run, events) = drive(answers);
    assert_eq!(127, result(run).unwrap());
    match &events[1] {
        Event::TerminatedAbnormally { pid, signal, .. } => {
            assert_eq!(77, *pid);
            assert_eq!("unknown", signal);
        }
        other => panic!("not abnormal: {:?}", other),
    }
}

#[test]
fn generic_failed_wait_is_an_error() {
    let mut answers = until_wait();
    answers.push(GenericObserved::Waited(Err(io_error())));
    let (run, events) = drive(answers);
    let error = result(run).unwrap_err();
    assert!(matches!(error, RunError::WaitSpawned(_)));
    assert_eq!("Waiting for process failed.", error.message());
    assert_eq!(1, events.len());
}

#[test]
fn generic_unknown_directory_is_an_error() {
    let (run, events) = drive(vec![GenericObserved::Directory(Err(io_error()))]);
    assert!(!run.awaits(&GenericObserved::Parent(1)));
    let error = result(run).unwrap_err();
    assert!(matches!(error, RunError::CurrentDirectory(_)));
    assert!(events.is_empty());
}

#[test]
fn generic_step_has_the_given_time() {
    let time = Timestamp { seconds: 1, nanoseconds: 2 };
    let waiting = GenericRun::Wait { pid: 2 };
    match waiting.advance(GenericObserved::Waited(Ok(Some(4))), time) {
        (GenericRun::Done { result: Ok(4) }, Some(Event::TerminatedNormally { pid, when, .. })) => {
            assert_eq!(2, pid);
            assert_eq!(time, when);
        }
        other => panic!("not the end: {:?}", other),
    }
}

#[test]
fn executor_reports_to_the_channel() {
    let (tx, rx) = mpsc::channel();
    let mut sut = executor(tx);
    sut.report(Event::Continued { pid: 6, when: Timestamp { seconds: 1, nanoseconds: 2 } });
    assert!(matches!(rx.recv(), Ok(Event::Continued { pid: 6, .. })));
}

#[test]
fn parent_defaults_to_zero() {
    assert_eq!(12, get_parent_pid(Some(12)));
    assert_eq!(0, get_parent_pid(None));
}

#[test]
fn waiting_again_gives_the_same_end() {
    for (ended, code) in [(Some(3), 3), (None, 127)] {
        let mut reported = vec![];
        for seconds in [1, 2] {
            let time = Timestamp { seconds, nanoseconds: 9 };
            let waiting = GenericRun::Wait { pid: 77 };
            let (run, event) = waiting.advance(GenericObserved::Waited(Ok(ended)), time);
            assert_eq!(code, result(run).unwrap());
            let (ended_with, directly) = wait(77, ended, time);
            assert_eq!(code, ended_with);
            assert_eq!(format!("{:?}", event), format!("{:?}", Some(directly)));
            reported.push(event.unwrap());
        }
        match (&reported[0], &reported[1]) {
            (
                Event::TerminatedNormally { pid: 77, code: first, when: earlier },
                Event::TerminatedNormally { pid: 77, code: again, when: later },
            ) => {
                assert_eq!((3, 3), (*first, *again));
                assert_eq!((1, 2), (earlier.seconds, later.seconds));
            }
            (
                Event::TerminatedAbnormally { pid: 77, signal: first, when: earlier },
                Event::TerminatedAbnormally { pid: 77, signal: again, when: later },
            ) => {
                assert_eq!(("unknown", "unknown"), (first.as_str(), again.as_str()));
                assert_eq!((1, 2), (earlier.seconds, later.seconds));
            }
            other => panic!("not the same: {:?}", other),
        }
    }
}

#[test]
fn generic_answers_with_an_event() {
    let waiting = GenericRun::Wait { pid: 77 };
    assert!(waiting.reports(&GenericObserved::Waited(Ok(Some(0)))));
    assert!(waiting.reports(&GenericObserved::Waited(Ok(None))));
    assert!(!waiting.reports(&GenericObserved::Waited(Err(io_error()))));
    assert!(!GenericRun::new(command()).reports(&until_wait()[0]));
}

#[test]
fn new_generic_executor_sends_nothing_and_keeps_its_channel() {
    let (tx, rx) = mpsc::channel();
    let mut sut = GenericExecutor::new(tx);
    assert!(rx.try_recv().is_err());
    for pid in [6, 7] {
        sut.report(Event::Continued { pid, when: Timestamp { seconds: 1, nanoseconds: 2 } });
    }
    drop(sut);
    assert_eq!(vec![6, 7], rx.iter().map(|event| event.pid()).collect::<Vec<_>>());
}

#[test]
fn program_is_started_without_its_name() {
    let (run, _) = drive(vec![GenericObserved::Directory(Ok(PathBuf::from("/home/build")))]);
    match run {
        GenericRun::Spawn { command, cwd, arguments } => {
            assert_eq!(PathBuf::from("/usr/bin/cc"), command.program);
            assert_eq!(PathBuf::from("/home/build"), cwd);
            assert_eq!(vec!["main.c".to_string()], arguments);
        }
        other => panic!("not started: {:?}", other),
    }
}

#[test]
fn missing_program_name_is_a_panic() {
    let nameless = Command { program: PathBuf::from("/usr/bin/cc"), args: vec![], envs: vec![] };
    let (tx, rx) = mpsc::channel();
    let mut sut = GenericExecutor::new(tx);
    let run = sut.run(GenericRun::new(nameless), GenericObserved::Directory(Ok(PathBuf::from("/"))));
    assert!(matches!(run, GenericRun::Panic));
    assert!(!run.awaits(&GenericObserved::Spawned(Ok(1))));
    assert!(rx.try_recv().is_err());
    let nameless = Command { program: PathBuf::from("/usr/bin/cc"), args: vec![], envs: vec![] };
    let run = sut.run(GenericRun::new(nameless), GenericObserved::Directory(Err(io_error())));
    assert!(matches!(result(run), Err(RunError::CurrentDirectory(_))));
}
