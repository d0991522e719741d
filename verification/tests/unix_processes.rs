//! Runs with real processes: the driver asks the system for what a run needs.

use std::num::NonZeroU8;
use std::path::{Path, PathBuf};
use std::sync::mpsc;

use nix::fcntl;
use nix::sys::signal::{self, Signal};
use nix::sys::wait::{self, WaitStatus};
use nix::unistd::{self, ForkResult, Pid};

use intercept::command::{Command, ExecCall};
use intercept::error::RunError;
use intercept::event::{Event, ExitCode, ProcessId};
use intercept::executor::Executor;
use intercept::unix::{
    executor, Forked, UnixExecutor, UnixObserved, UnixRun, WaitOutcome,
};

fn resolve(program: &str) -> PathBuf {
    for directory in ["/usr/bin", "/bin"] {
        let path = Path::new(directory).join(program);
        if path.exists() {
            return path;
        }
    }
    PathBuf::from(program)
}

fn text_bytes(text: &str) -> Vec<NonZeroU8> {
    text.bytes().map(|byte| NonZeroU8::new(byte).unwrap()).collect()
}

fn outcome(status: WaitStatus) -> WaitOutcome {
    match status {
        WaitStatus::Exited(pid, code) => WaitOutcome::Exited { pid: pid.as_raw(), code },
        WaitStatus::Signaled(pid, signal, core_dumped) =>
            WaitOutcome::Signaled { pid: pid.as_raw(), signal, core_dumped },
        WaitStatus::Stopped(pid, signal) => WaitOutcome::Stopped { pid: pid.as_raw(), signal },
        WaitStatus::Continued(pid) => WaitOutcome::Continued { pid: pid.as_raw() },
        _ => WaitOutcome::Other,
    }
}

fn execve(call: &ExecCall) -> nix::Result<()> {
    let args = call.args.iter().map(|arg| text_bytes(arg).into()).collect::<Vec<_>>();
    let envs = call.envs.iter().map(|env| text_bytes(env).into()).collect::<Vec<_>>();
    unistd::execve(&text_bytes(&call.program).into(), args.as_slice(), envs.as_slice()).map(|_| ())
}

fn observe(run: &UnixRun) -> UnixObserved {
    match run {
        UnixRun::GetDirectory { .. } => UnixObserved::Directory(Ok(unistd::getcwd().unwrap())),
        UnixRun::CreatePipe { .. } => UnixObserved::Pipe(unistd::pipe()),
        UnixRun::Fork { .. } => UnixObserved::Forked(unistd::fork().map(|forked| match forked {
            ForkResult::Parent { child } => Forked::Parent { child: child.as_raw() },
            ForkResult::Child => Forked::Child,
        })),
        UnixRun::CloseWriteEnd { write_fd, .. } => {
            let _ = unistd::close(*write_fd);
            UnixObserved::Closed
        }
        UnixRun::CloseReadEnd { read_fd, .. } | UnixRun::CloseReadEndInChild { read_fd, .. } => {
            let _ = unistd::close(*read_fd);
            UnixObserved::Closed
        }
        UnixRun::ReadPipe { read_fd, size, .. } => {
            let mut buffer = vec![0u8; *size];
            let count = unistd::read(*read_fd, buffer.as_mut());
            UnixObserved::Read { buffer, count }
        }
        UnixRun::GetParent { .. } => UnixObserved::Parent(Pid::parent().as_raw()),
        UnixRun::Wait { pid, options } => UnixObserved::Waited(
            wait::waitpid(Pid::from_raw(*pid), *options).map(outcome),
        ),
        UnixRun::GetFlags { write_fd, .. } =>
            UnixObserved::Flags(fcntl::fcntl(*write_fd, fcntl::F_GETFD)),
        UnixRun::SetFlags { write_fd, flags, .. } => {
            UnixObserved::FlagsSet(fcntl::fcntl(*write_fd, fcntl::F_SETFD(*flags)).map(|_| ()))
        }
        UnixRun::Execute { call, .. } => UnixObserved::Executed(execve(call)),
        UnixRun::WriteMessage { write_fd, message } => {
            let _ = unistd::write(*write_fd, message);
            UnixObserved::Written
        }
        UnixRun::Exit { .. } | UnixRun::Panic { .. } => {
            // The child must not come back into the test.
            signal::kill(Pid::this(), Signal::SIGKILL).unwrap();
            unreachable!()
        }
        UnixRun::Done { .. } => unreachable!(),
    }
}

/// Runs the command to its end; `react` sees each event as soon as it is reported.
fn run_test(
    program: &Path,
    args: &[&str],
    react: fn(&Event),
) -> (Result<ExitCode, RunError>, Vec<Event>) {
    let (tx, rx) = mpsc::channel();
    let mut sut: UnixExecutor = executor(tx);
    let mut events = vec![];
    let mut run = UnixRun::new(Command {
        program: program.to_path_buf(),
        args: args.iter().map(|arg| arg.to_string()).collect(),
        envs: vec![],
    }, true);
    loop {
        if let UnixRun::Done { result } = run {
            return (result, events);
        }
        let observed = observe(&run);
        assert!(run.awaits(&observed));
        run = sut.run(run, observed);
        for event in rx.try_iter() {
            react(&event);
            events.push(event);
        }
    }
}

fn kill(pid: ProcessId, signal: Signal) {
    signal::kill(Pid::from_raw(pid as i32), signal).expect("kill failed");
}

fn assert_start_stop_events(program: &str, expected_exit_code: i32) {
    let command = resolve(program);
    let (_, events) = run_test(&command, &[program], |_| ());

    assert_eq!(2usize, events.len());
    assert_ne!(0, events[0].pid());
    assert_ne!(Pid::this().as_raw() as u32, events[0].pid());
    assert_ne!(Pid::parent().as_raw() as u32, events[0].pid());
    assert_eq!(events[0].pid(), events[1].pid());
    match &events[0] {
        Event::Created { ppid, cwd, program: created, args, .. } => {
            assert_eq!(Pid::parent().as_raw() as u32, *ppid);
            assert_eq!(unistd::getcwd().unwrap().as_path(), cwd.as_path());
            assert_eq!(&vec![program.to_string()], args);
            assert_eq!(command.as_path(), created.as_path());
        }
        _ => panic!("not the start"),
    }
    match &events[1] {
        Event::TerminatedNormally { code, .. } => assert_eq!(expected_exit_code, *code),
        _ => panic!("not the end"),
    }
}

#[test]
fn executor_success() {
    let (result, _) = run_test(&resolve("true"), &["true"], |_| ());
    assert_eq!(true, result.is_ok());
    assert_eq!(0i32, result.unwrap());
    assert_start_stop_events("true", 0i32);
}

#[test]
fn executor_fail() {
    let (result, _) = run_test(&resolve("false"), &["false"], |_| ());
    assert_eq!(true, result.is_ok());
    assert_eq!(1i32, result.unwrap());
    assert_start_stop_events("false", 1i32);
}

#[test]
fn executor_exec_failure() {
    let (result, events) =
        run_test(Path::new("sure-this-is-not-there"), &["sure-this-is-not-there"], |_| ());
    assert_eq!(false, result.is_ok());
    assert_eq!(0usize, events.len());
    assert_eq!("ENOENT: No such file or directory", result.unwrap_err().message());
}

#[test]
fn kill_signal() {
    let (result, events) = run_test(&resolve("sleep"), &["sleep", "5"], |event| {
        if let Event::Created { pid, .. } = event {
            kill(*pid, Signal::SIGKILL);
        }
    });
    assert_eq!(127, result.unwrap());
    assert_eq!(2usize, events.len());
    match &events[1] {
        Event::TerminatedAbnormally { signal, .. } => assert_eq!("SIGKILL".to_string(), *signal),
        _ => panic!("not killed"),
    }
}

#[test]
fn stop_signal() {
    let (result, events) = run_test(&resolve("sleep"), &["sleep", "5"], |event| match event {
        Event::Created { pid, .. } => kill(*pid, Signal::SIGSTOP),
        Event::Stopped { pid, .. } => kill(*pid, Signal::SIGCONT),
        Event::Continued { pid, .. } => kill(*pid, Signal::SIGKILL),
        _ => (),
    });
    assert_eq!(127, result.unwrap());
    assert_eq!(4usize, events.len());
    match &events[1] {
        Event::Stopped { signal, .. } => assert_eq!("SIGSTOP".to_string(), *signal),
        _ => panic!("not stopped"),
    }
    assert!(matches!(events[2], Event::Continued { .. }));
    match &events[3] {
        Event::TerminatedAbnormally { signal, .. } => assert_eq!("SIGKILL".to_string(), *signal),
        _ => panic!("not killed"),
    }
}

#[test]
fn null_byte_in_an_argument_reaches_the_parent() {
    let (result, events) = run_test(&resolve("true"), &["true", "a\0b"], |_| ());
    assert_eq!(0usize, events.len());
    assert_eq!("String contains null byte.", result.unwrap_err().message());
}
