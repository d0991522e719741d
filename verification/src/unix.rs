//! Running a command with the system calls of Unix.
//!
//! The process forks. The child executes the program of the command; the parent learns through a
//! pipe whether it could, and then waits for the child to end.

use vstd::prelude::*;
use vstd::utf8::*;
use std::path::PathBuf;
use std::sync::mpsc::Sender;
use nix::fcntl::FdFlag;
use nix::sys::signal::Signal;
use nix::sys::wait::WaitPidFlag;
use crate::command::{execute, Command, ExecCall, ExecCallView};
use crate::error::RunError;
use crate::event::{texts, Event, EventView, ExitCode, ProcessId, Timestamp};
use crate::executor::{appended, optional_view, Executor};
use crate::flags::{close_on_exec_flags, wait_bits, wait_flags};
use crate::outside::{
    channel_of, fd_flag_bits, now, send, sent_events, signal_name, signal_text, wait_flag_bits,
    Clock,
};

verus! {

/// The size of the buffer for the message of the child.
pub const MESSAGE_SIZE: usize = 1024;

/// The exit code for a process that was killed by a signal.
pub const SIGNALED_CODE: ExitCode = 127;

/// A run, named after what the system has to be asked for next. Until it waits for the child,
/// `stopped` says whether the option for stopped children is to be set when it does.
#[derive(Debug)]
pub enum UnixRun {
    /// The working directory of this process.
    GetDirectory { command: Command, stopped: bool },
    /// A pipe.
    CreatePipe { command: Command, stopped: bool, cwd: PathBuf },
    /// A child process.
    Fork { command: Command, stopped: bool, cwd: PathBuf, read_fd: i32, write_fd: i32 },
    /// In the parent: to close the end of the pipe that the child writes to.
    CloseWriteEnd {
        command: Command,
        stopped: bool,
        cwd: PathBuf,
        child: i32,
        read_fd: i32,
        write_fd: i32,
    },
    /// In the parent: to read into a zeroed buffer of this size what the child wrote.
    ReadPipe {
        command: Command,
        stopped: bool,
        cwd: PathBuf,
        child: i32,
        read_fd: i32,
        size: usize,
    },
    /// In the parent: to close the end of the pipe that was read from.
    CloseReadEnd {
        command: Command,
        stopped: bool,
        cwd: PathBuf,
        read_fd: i32,
        spawned: Result<i32, RunError>,
    },
    /// In the parent: the parent of this process.
    GetParent { command: Command, stopped: bool, cwd: PathBuf, child: i32 },
    /// In the parent: a change of the child, waited for with these options.
    Wait { pid: i32, options: Option<WaitPidFlag> },
    /// In the child: to close the end of the pipe that the parent reads from.
    CloseReadEndInChild { command: Command, read_fd: i32, write_fd: i32 },
    /// In the child: the flags of the end of the pipe that it writes to.
    GetFlags { command: Command, write_fd: i32 },
    /// In the child: to give the end these flags, so that it is closed when the program is replaced.
    SetFlags { command: Command, write_fd: i32, flags: FdFlag },
    /// In the child: to replace the program by this call.
    Execute { call: ExecCall, write_fd: i32 },
    /// In the child: to write the message to the pipe.
    WriteMessage { write_fd: i32, message: Vec<u8> },
    /// In the child: to exit.
    Exit { status: i32 },
    /// In the child: to panic, as the flags of the pipe could not be set.
    Panic { cause: nix::Error },
    /// Nothing, the run is over.
    Done { result: Result<ExitCode, RunError> },
}

/// What a `UnixRun` says, with the flags as bits and the texts as sequences.
pub enum UnixRunView {
    GetDirectory { command: Command, stopped: bool },
    CreatePipe { command: Command, stopped: bool, cwd: PathBuf },
    Fork { command: Command, stopped: bool, cwd: PathBuf, read_fd: i32, write_fd: i32 },
    CloseWriteEnd {
        command: Command,
        stopped: bool,
        cwd: PathBuf,
        child: i32,
        read_fd: i32,
        write_fd: i32,
    },
    ReadPipe {
        command: Command,
        stopped: bool,
        cwd: PathBuf,
        child: i32,
        read_fd: i32,
        size: usize,
    },
    CloseReadEnd {
        command: Command,
        stopped: bool,
        cwd: PathBuf,
        read_fd: i32,
        spawned: Result<i32, RunError>,
    },
    GetParent { command: Command, stopped: bool, cwd: PathBuf, child: i32 },
    Wait { pid: i32, options: Option<i32> },
    CloseReadEndInChild { command: Command, read_fd: i32, write_fd: i32 },
    GetFlags { command: Command, write_fd: i32 },
    SetFlags { command: Command, write_fd: i32, flags: i32 },
    Execute { call: ExecCallView, write_fd: i32 },
    WriteMessage { write_fd: i32, message: Seq<u8> },
    Exit { status: i32 },
    Panic { cause: nix::Error },
    Done { result: Result<ExitCode, RunError> },
}

/// The bits of optional wait options.
pub open spec fn option_bits(options: Option<WaitPidFlag>) -> Option<i32> {
    match options {
        Some(f) => Some(wait_flag_bits(f)),
        None => None,
    }
}

impl View for UnixRun {
    type V = UnixRunView;

    open spec fn view(&self) -> UnixRunView {
        match *self {
            UnixRun::GetDirectory { command, stopped } => UnixRunView::GetDirectory {
                command,
                stopped,
            },
            UnixRun::CreatePipe { command, stopped, cwd } => UnixRunView::CreatePipe {
                command,
                stopped,
                cwd,
            },
            UnixRun::Fork { command, stopped, cwd, read_fd, write_fd } => UnixRunView::Fork {
                command,
                stopped,
                cwd,
                read_fd,
                write_fd,
            },
            UnixRun::CloseWriteEnd { command, stopped, cwd, child, read_fd, write_fd } =>
                UnixRunView::CloseWriteEnd {
                    command,
                    stopped,
                    cwd,
                    child,
                    read_fd,
                    write_fd,
                },
            UnixRun::ReadPipe { command, stopped, cwd, child, read_fd, size } =>
                UnixRunView::ReadPipe {
                    command,
                    stopped,
                    cwd,
                    child,
                    read_fd,
                    size,
                },
            UnixRun::CloseReadEnd { command, stopped, cwd, read_fd, spawned } =>
                UnixRunView::CloseReadEnd {
                    command,
                    stopped,
                    cwd,
                    read_fd,
                    spawned,
                },
            UnixRun::GetParent { command, stopped, cwd, child } => UnixRunView::GetParent {
                command,
                stopped,
                cwd,
                child,
            },
            UnixRun::Wait { pid, options } => UnixRunView::Wait { pid, options: option_bits(options) },
            UnixRun::CloseReadEndInChild { command, read_fd, write_fd } =>
                UnixRunView::CloseReadEndInChild {
                    command,
                    read_fd,
                    write_fd,
                },
            UnixRun::GetFlags { command, write_fd } => UnixRunView::GetFlags { command, write_fd },
            UnixRun::SetFlags { command, write_fd, flags } => UnixRunView::SetFlags {
                command,
                write_fd,
                flags: fd_flag_bits(flags),
            },
            UnixRun::Execute { call, write_fd } => UnixRunView::Execute { call: call@, write_fd },
            UnixRun::WriteMessage { write_fd, message } => UnixRunView::WriteMessage {
                write_fd,
                message: message@,
            },
            UnixRun::Exit { status } => UnixRunView::Exit { status },
            UnixRun::Panic { cause } => UnixRunView::Panic { cause },
            UnixRun::Done { result } => UnixRunView::Done { result },
        }
    }
}

/// In which of the two processes a fork came back.
#[derive(Clone, Copy, Debug, PartialEq, Eq, Structural)]
pub enum Forked {
    Parent { child: i32 },
    Child,
}

/// What happened to a child.
#[derive(Clone, Copy, Debug)]
pub enum WaitOutcome {
    /// It exited.
    Exited { pid: i32, code: i32 },
    /// It was killed.
    Signaled { pid: i32, signal: Signal, core_dumped: bool },
    /// It was suspended.
    Stopped { pid: i32, signal: Signal },
    /// It was resumed.
    Continued { pid: i32 },
    /// Anything else.
    Other,
}

/// What the system answered.
#[derive(Debug)]
pub enum UnixObserved {
    Directory(Result<PathBuf, std::io::Error>),
    /// The end to read from and the end to write to.
    Pipe(Result<(i32, i32), nix::Error>),
    Forked(Result<Forked, nix::Error>),
    Closed,
    /// The whole buffer, and how many bytes were read into it.
    Read { buffer: Vec<u8>, count: Result<usize, nix::Error> },
    Parent(i32),
    Waited(Result<WaitOutcome, nix::Error>),
    Flags(Result<i32, nix::Error>),
    FlagsSet(Result<(), nix::Error>),
    Executed(Result<(), nix::Error>),
    Written,
}

/// The run that is over with an error.
pub open spec fn failed(error: RunError) -> UnixRunView {
    UnixRunView::Done { result: Err(error) }
}

/// The run in which the child tells its parent of an error.
pub open spec fn telling(write_fd: i32, error: RunError) -> UnixRunView {
    UnixRunView::WriteMessage { write_fd, message: encode_utf8(error.text()) }
}

impl UnixRunView {
    /// The answer is one to what the run asks for.
    pub open spec fn awaits(self, observed: UnixObserved) -> bool {
        match self {
            UnixRunView::GetDirectory { .. } => observed is Directory,
            UnixRunView::CreatePipe { .. } => observed is Pipe,
            UnixRunView::Fork { .. } => observed is Forked,
            UnixRunView::CloseWriteEnd { .. } => observed is Closed,
            UnixRunView::ReadPipe { .. } => observed is Read,
            UnixRunView::CloseReadEnd { .. } => observed is Closed,
            UnixRunView::GetParent { .. } => observed is Parent,
            UnixRunView::Wait { .. } => observed is Waited,
            UnixRunView::CloseReadEndInChild { .. } => observed is Closed,
            UnixRunView::GetFlags { .. } => observed is Flags,
            UnixRunView::SetFlags { .. } => observed is FlagsSet,
            UnixRunView::Execute { .. } => observed is Executed,
            UnixRunView::WriteMessage { .. } => observed is Written,
            UnixRunView::Exit { .. } => false,
            UnixRunView::Panic { .. } => false,
            UnixRunView::Done { .. } => false,
        }
    }

    /// The run, after the answer.
    pub open spec fn next(self, observed: UnixObserved) -> UnixRunView {
        match (self, observed) {
            (UnixRunView::GetDirectory { command, stopped }, UnixObserved::Directory(Ok(cwd))) =>
                UnixRunView::CreatePipe { command, stopped, cwd },
            (UnixRunView::GetDirectory { .. }, UnixObserved::Directory(Err(e))) => failed(
                RunError::CurrentDirectory(e),
            ),
            (
                UnixRunView::CreatePipe { command, stopped, cwd },
                UnixObserved::Pipe(Ok((read_fd, write_fd))),
            ) =>
                UnixRunView::Fork { command, stopped, cwd, read_fd, write_fd },
            (
                UnixRunView::CreatePipe { .. },
                UnixObserved::Pipe(Err(e)),
            ) => failed(RunError::Pipe(e)),
            (
                UnixRunView::Fork { command, stopped, cwd, read_fd, write_fd },
                UnixObserved::Forked(Ok(forked)),
            ) =>
                match forked {
                    Forked::Parent { child } => UnixRunView::CloseWriteEnd {
                        command,
                        stopped,
                        cwd,
                        child,
                        read_fd,
                        write_fd,
                    },
                    Forked::Child => UnixRunView::CloseReadEndInChild { command, read_fd, write_fd },
                },
            (UnixRunView::Fork { .. }, UnixObserved::Forked(Err(e))) => failed(RunError::Fork(e)),
            (
                UnixRunView::CloseWriteEnd { command, stopped, cwd, child, read_fd, .. },
                UnixObserved::Closed,
            ) =>
                UnixRunView::ReadPipe { command, stopped, cwd, child, read_fd, size: MESSAGE_SIZE },
            (
                UnixRunView::ReadPipe { command, stopped, cwd, child, read_fd, .. },
                UnixObserved::Read { buffer, count },
            ) => UnixRunView::CloseReadEnd {
                command,
                stopped,
                cwd,
                read_fd,
                spawned: match count {
                    // The child closed its end by executing the program.
                    Ok(0) => Ok(child),
                    Ok(count) => Err(RunError::Child { buffer, count }),
                    Err(e) => Err(RunError::PipeRead(e)),
                },
            },
            (
                UnixRunView::CloseReadEnd { command, stopped, cwd, spawned, .. },
                UnixObserved::Closed,
            ) =>
                match spawned {
                    Ok(child) => UnixRunView::GetParent { command, stopped, cwd, child },
                    Err(e) => failed(e),
                },
            (UnixRunView::GetParent { stopped, child, .. }, UnixObserved::Parent(_)) =>
                UnixRunView::Wait { pid: child, options: Some(wait_bits(stopped)) },
            (
                UnixRunView::Wait { pid: awaited, options },
                UnixObserved::Waited(Ok(outcome)),
            ) => match outcome {
                WaitOutcome::Exited { code, .. } => UnixRunView::Done { result: Ok(code) },
                WaitOutcome::Signaled { .. } => UnixRunView::Done { result: Ok(SIGNALED_CODE) },
                WaitOutcome::Stopped { pid, .. } => UnixRunView::Wait { pid, options },
                WaitOutcome::Continued { pid } => UnixRunView::Wait { pid, options },
                WaitOutcome::Other => UnixRunView::Wait { pid: awaited, options },
            },
            (UnixRunView::Wait { .. }, UnixObserved::Waited(Err(e))) => failed(RunError::Wait(e)),
            (UnixRunView::CloseReadEndInChild { command, write_fd, .. }, UnixObserved::Closed) =>
                UnixRunView::GetFlags { command, write_fd },
            (UnixRunView::GetFlags { command, write_fd }, UnixObserved::Flags(Ok(_))) =>
                // The lowest bit closes the end when the program is replaced; no other flag is known.
                UnixRunView::SetFlags { command, write_fd, flags: 1 },
            (
                UnixRunView::GetFlags { .. },
                UnixObserved::Flags(Err(cause)),
            ) => UnixRunView::Panic { cause },
            (UnixRunView::SetFlags { command, write_fd, .. }, UnixObserved::FlagsSet(Ok(_))) =>
                match command.call() {
                    Ok(call) => UnixRunView::Execute { call, write_fd },
                    Err(error) => telling(write_fd, error),
                },
            (
                UnixRunView::SetFlags { .. },
                UnixObserved::FlagsSet(Err(cause)),
            ) => UnixRunView::Panic {
                cause,
            },
            (
                UnixRunView::Execute { .. },
                UnixObserved::Executed(Ok(_)),
            ) => failed(RunError::Execved),
            (UnixRunView::Execute { write_fd, .. }, UnixObserved::Executed(Err(e))) =>
                telling(write_fd, RunError::Execve(e)),
            (
                UnixRunView::WriteMessage { .. },
                UnixObserved::Written,
            ) => UnixRunView::Exit { status: 1 },
            _ => self,
        }
    }

    /// The answer gives rise to an event.
    pub open spec fn reports(self, observed: UnixObserved) -> bool {
        match (self, observed) {
            (UnixRunView::GetParent { .. }, UnixObserved::Parent(_)) => true,
            (UnixRunView::Wait { .. }, UnixObserved::Waited(Ok(outcome))) => !(outcome is Other),
            _ => false,
        }
    }

    /// The event that the answer at this time gives rise to.
    pub open spec fn event(self, observed: UnixObserved, time: Timestamp) -> Option<EventView> {
        match (self, observed) {
            (
                UnixRunView::GetParent { command, cwd, child, .. },
                UnixObserved::Parent(parent),
            ) => Some(
                EventView::Created {
                    pid: child as ProcessId,
                    ppid: parent as ProcessId,
                    cwd,
                    program: command.program,
                    args: texts(command.args@),
                    when: time,
                },
            ),
            (UnixRunView::Wait { .. }, UnixObserved::Waited(Ok(outcome))) => match outcome {
                WaitOutcome::Exited { pid, code } => Some(
                    EventView::TerminatedNormally { pid: pid as ProcessId, code, when: time },
                ),
                WaitOutcome::Signaled { pid, signal, .. } => Some(
                    EventView::TerminatedAbnormally {
                        pid: pid as ProcessId,
                        signal: signal_text(signal),
                        when: time,
                    },
                ),
                WaitOutcome::Stopped { pid, signal } => Some(
                    EventView::Stopped {
                        pid: pid as ProcessId,
                        signal: signal_text(signal),
                        when: time,
                    },
                ),
                WaitOutcome::Continued { pid } => Some(
                    EventView::Continued { pid: pid as ProcessId, when: time },
                ),
                WaitOutcome::Other => None,
            },
            _ => None,
        }
    }
}

impl UnixRun {
    /// The run of a command, before its first step. `stopped` says whether the platform has a separate
    /// option to wait for stopped children.
    pub fn new(command: Command, stopped: bool) -> (run: UnixRun)
        ensures
            run@ == (UnixRunView::GetDirectory { command, stopped }),
    {
        UnixRun::GetDirectory { command, stopped }
    }

    /// Tells whether the answer is one to what the run asks for.
    pub fn awaits(&self, observed: &UnixObserved) -> (awaited: bool)
        ensures
            awaited == self@.awaits(*observed),
    {
        match (self, observed) {
            (UnixRun::GetDirectory { .. }, UnixObserved::Directory(_)) => true,
            (UnixRun::CreatePipe { .. }, UnixObserved::Pipe(_)) => true,
            (UnixRun::Fork { .. }, UnixObserved::Forked(_)) => true,
            (UnixRun::CloseWriteEnd { .. }, UnixObserved::Closed) => true,
            (UnixRun::ReadPipe { .. }, UnixObserved::Read { .. }) => true,
            (UnixRun::CloseReadEnd { .. }, UnixObserved::Closed) => true,
            (UnixRun::GetParent { .. }, UnixObserved::Parent(_)) => true,
            (UnixRun::Wait { .. }, UnixObserved::Waited(_)) => true,
            (UnixRun::CloseReadEndInChild { .. }, UnixObserved::Closed) => true,
            (UnixRun::GetFlags { .. }, UnixObserved::Flags(_)) => true,
            (UnixRun::SetFlags { .. }, UnixObserved::FlagsSet(_)) => true,
            (UnixRun::Execute { .. }, UnixObserved::Executed(_)) => true,
            (UnixRun::WriteMessage { .. }, UnixObserved::Written) => true,
            _ => false,
        }
    }

    /// The run after the answer, and the event that the answer at this time gives rise to.
    pub fn advance(self, observed: UnixObserved, time: Timestamp) -> (step: (
        UnixRun,
        Option<Event>,
    ))
        requires
            self@.awaits(observed),
        ensures
            step.0@ == self@.next(observed),
            optional_view(step.1) == self@.event(observed, time),
    {
        match (self, observed) {
            (UnixRun::GetParent { command, stopped, cwd, child }, UnixObserved::Parent(parent)) => {
                let event = Event::Created {
                    pid: child as ProcessId,
                    ppid: parent as ProcessId,
                    cwd,
                    program: command.program,
                    args: command.args,
                    when: time,
                };
                (UnixRun::Wait { pid: child, options: wait_flags(stopped) }, Some(event))
            },
            (UnixRun::Wait { pid, options }, UnixObserved::Waited(Ok(outcome))) => wait(
                pid,
                options,
                change_of(outcome),
                time,
            ),
            (run, observed) => (run.proceed(observed), None),
        }
    }

    /// Tells whether the answer gives rise to an event.
    pub fn reports(&self, observed: &UnixObserved) -> (reports: bool)
        ensures
            reports == self@.reports(*observed),
    {
        match (self, observed) {
            (UnixRun::GetParent { .. }, UnixObserved::Parent(_)) => true,
            (UnixRun::Wait { .. }, UnixObserved::Waited(Ok(outcome))) => match outcome {
                WaitOutcome::Other => false,
                _ => true,
            },
            _ => false,
        }
    }

    /// The run after an answer that gives rise to no event.
    fn proceed(self, observed: UnixObserved) -> (next: UnixRun)
        requires
            self@.awaits(observed),
            !self@.reports(observed),
        ensures
            next@ == self@.next(observed),
    {
        match (self, observed) {
            (UnixRun::Wait { .. }, UnixObserved::Waited(Err(e))) => UnixRun::Done {
                result: Err(RunError::Wait(e)),
            },
            (UnixRun::Wait { pid, options }, _) => UnixRun::Wait { pid, options },
            (run, observed) => run.spawn(observed),
        }
    }

    /// The run after the answer, up to the point where the child is known to execute the program, and
    /// in the child.
    fn spawn(self, observed: UnixObserved) -> (next: UnixRun)
        requires
            self@.awaits(observed),
            !(self@ is GetParent),
            !(self@ is Wait),
        ensures
            next@ == self@.next(observed),
    {
        match (self, observed) {
            (UnixRun::GetDirectory { command, stopped }, UnixObserved::Directory(directory)) =>
                match directory {
                    Ok(cwd) => UnixRun::CreatePipe { command, stopped, cwd },
                    Err(e) => UnixRun::Done { result: Err(RunError::CurrentDirectory(e)) },
                },
            (
                UnixRun::CreatePipe { command, stopped, cwd },
                UnixObserved::Pipe(pipe),
            ) => match pipe {
                Ok((read_fd, write_fd)) => UnixRun::Fork { command, stopped, cwd, read_fd, write_fd },
                Err(e) => UnixRun::Done { result: Err(RunError::Pipe(e)) },
            },
            (
                UnixRun::Fork { command, stopped, cwd, read_fd, write_fd },
                UnixObserved::Forked(forked),
            ) =>
                match forked {
                    Ok(Forked::Parent { child }) => UnixRun::CloseWriteEnd {
                        command,
                        stopped,
                        cwd,
                        child,
                        read_fd,
                        write_fd,
                    },
                    Ok(Forked::Child) => UnixRun::CloseReadEndInChild {
                        command,
                        read_fd,
                        write_fd,
                    },
                    Err(e) => UnixRun::Done { result: Err(RunError::Fork(e)) },
                },
            (
                UnixRun::CloseWriteEnd { command, stopped, cwd, child, read_fd, .. },
                UnixObserved::Closed,
            ) =>
                UnixRun::ReadPipe { command, stopped, cwd, child, read_fd, size: MESSAGE_SIZE },
            (
                UnixRun::ReadPipe { command, stopped, cwd, child, read_fd, .. },
                UnixObserved::Read { buffer, count },
            ) => {
                let spawned = match count {
                    Ok(0) => Ok(child),
                    Ok(count) => Err(RunError::Child { buffer, count }),
                    Err(e) => Err(RunError::PipeRead(e)),
                };
                UnixRun::CloseReadEnd { command, stopped, cwd, read_fd, spawned }
            },
            (UnixRun::CloseReadEnd { command, stopped, cwd, spawned, .. }, UnixObserved::Closed) =>
                match spawned {
                    Ok(child) => UnixRun::GetParent { command, stopped, cwd, child },
                    Err(e) => UnixRun::Done { result: Err(e) },
                },
            (UnixRun::CloseReadEndInChild { command, write_fd, .. }, UnixObserved::Closed) =>
                UnixRun::GetFlags { command, write_fd },
            (UnixRun::GetFlags { command, write_fd }, UnixObserved::Flags(flags)) => match flags {
                Ok(current) => UnixRun::SetFlags {
                    command,
                    write_fd,
                    flags: close_on_exec_flags(current),
                },
                Err(cause) => UnixRun::Panic { cause },
            },
            (UnixRun::SetFlags { command, write_fd, .. }, UnixObserved::FlagsSet(set)) =>
                match set {
                    Ok(_) => match execute(&command) {
                        Ok(call) => UnixRun::Execute { call, write_fd },
                        Err(error) => tell(write_fd, error),
                    },
                    Err(cause) => UnixRun::Panic { cause },
                },
            (UnixRun::Execute { write_fd, .. }, UnixObserved::Executed(executed)) =>
                match executed {
                    Ok(_) => UnixRun::Done { result: Err(RunError::Execved) },
                    Err(e) => tell(write_fd, RunError::Execve(e)),
                },
            (UnixRun::WriteMessage { .. }, UnixObserved::Written) => UnixRun::Exit { status: 1 },
            (run, _) => run,
        }
    }
}

/// The run in which the child tells its parent of the error.
fn tell(write_fd: i32, error: RunError) -> (run: UnixRun)
    ensures
        run@ == telling(write_fd, error),
{
    UnixRun::WriteMessage { write_fd, message: error.to_bytes() }
}

/// What happened to a child, with the names of the signals.
#[derive(Debug)]
pub enum Change {
    /// It exited.
    Exited { pid: i32, code: i32 },
    /// It was killed.
    Signaled { pid: i32, signal: String },
    /// It was suspended.
    Stopped { pid: i32, signal: String },
    /// It was resumed.
    Continued { pid: i32 },
    /// Anything else.
    Other,
}

impl Change {
    /// The change is the outcome, with the name of its signal.
    pub open spec fn names(self, outcome: WaitOutcome) -> bool {
        match (self, outcome) {
            (Change::Exited { pid, code }, WaitOutcome::Exited { pid: p, code: c }) => {
                pid == p && code == c
            },
            (Change::Signaled { pid, signal }, WaitOutcome::Signaled { pid: p, signal: s, .. }) => {
                pid == p && signal@ == signal_text(s)
            },
            (Change::Stopped { pid, signal }, WaitOutcome::Stopped { pid: p, signal: s }) => {
                pid == p && signal@ == signal_text(s)
            },
            (Change::Continued { pid }, WaitOutcome::Continued { pid: p }) => pid == p,
            (Change::Other, WaitOutcome::Other) => true,
            _ => false,
        }
    }

    /// The run that waits for the process, after the change.
    pub open spec fn next(self, awaited: i32, options: Option<i32>) -> UnixRunView {
        match self {
            Change::Exited { code, .. } => UnixRunView::Done { result: Ok(code) },
            Change::Signaled { .. } => UnixRunView::Done { result: Ok(SIGNALED_CODE) },
            Change::Stopped { pid, .. } => UnixRunView::Wait { pid, options },
            Change::Continued { pid } => UnixRunView::Wait { pid, options },
            Change::Other => UnixRunView::Wait { pid: awaited, options },
        }
    }

    /// The event that the change at this time gives rise to.
    pub open spec fn event(self, time: Timestamp) -> Option<EventView> {
        match self {
            Change::Exited { pid, code } => Some(
                EventView::TerminatedNormally { pid: pid as ProcessId, code, when: time },
            ),
            Change::Signaled { pid, signal } => Some(
                EventView::TerminatedAbnormally {
                    pid: pid as ProcessId,
                    signal: signal@,
                    when: time,
                },
            ),
            Change::Stopped { pid, signal } => Some(
                EventView::Stopped { pid: pid as ProcessId, signal: signal@, when: time },
            ),
            Change::Continued { pid } => Some(
                EventView::Continued { pid: pid as ProcessId, when: time },
            ),
            Change::Other => None,
        }
    }
}

/// Gives the signal of the outcome its name.
fn change_of(outcome: WaitOutcome) -> (change: Change)
    ensures
        change.names(outcome),
{
    match outcome {
        WaitOutcome::Exited { pid, code } => Change::Exited { pid, code },
        WaitOutcome::Signaled { pid, signal, .. } => Change::Signaled {
            pid,
            signal: signal_name(signal),
        },
        WaitOutcome::Stopped { pid, signal } => Change::Stopped { pid, signal: signal_name(signal) },
        WaitOutcome::Continued { pid } => Change::Continued { pid },
        WaitOutcome::Other => Change::Other,
    }
}

/// The run that waits for a process after a change at this time, and the event of the change. A
/// process that was suspended or resumed is waited for again, with the same options.
pub fn wait(
    awaited: i32,
    options: Option<WaitPidFlag>,
    change: Change,
    time: Timestamp,
) -> (step: (UnixRun, Option<Event>))
    ensures
        step.0@ == change.next(awaited, option_bits(options)),
        optional_view(step.1) == change.event(time),
{
    match change {
        Change::Exited { pid, code } => {
            let event = Event::TerminatedNormally { pid: pid as ProcessId, code, when: time };
            (UnixRun::Done { result: Ok(code) }, Some(event))
        },
        Change::Signaled { pid, signal } => {
            let event = Event::TerminatedAbnormally { pid: pid as ProcessId, signal, when: time };
            (UnixRun::Done { result: Ok(SIGNALED_CODE) }, Some(event))
        },
        Change::Stopped { pid, signal } => {
            let event = Event::Stopped { pid: pid as ProcessId, signal, when: time };
            (UnixRun::Wait { pid, options }, Some(event))
        },
        Change::Continued { pid } => {
            let event = Event::Continued { pid: pid as ProcessId, when: time };
            (UnixRun::Wait { pid, options }, Some(event))
        },
        Change::Other => (UnixRun::Wait { pid: awaited, options }, None),
    }
}

/// Runs commands with the system calls of Unix.
pub struct UnixExecutor {
    reporter: Sender<Event>,
    clock: Clock,
}

impl UnixExecutor {
    /// An executor that reports to the given channel.
    pub fn new(reporter: Sender<Event>) -> (executor: UnixExecutor)
        ensures
            executor.reporter() == reporter,
            executor.clock().readings() == Seq::<Timestamp>::empty(),
    {
        UnixExecutor { reporter, clock: Clock::new() }
    }

    /// Reports an event. Whether anybody receives it makes no difference.
    pub fn report(&mut self, event: Event)
        ensures
            final(self).reported() == old(self).reported().push(event@),
            final(self).channel() == old(self).channel(),
            final(self).clock() == old(self).clock(),
    {
        match send(&mut self.reporter, event) {
            Ok(_) => {},
            Err(_) => {},
        }
    }
}

impl Executor for UnixExecutor {
    type Run = UnixRun;

    type State = UnixRunView;

    type Observed = UnixObserved;

    open spec fn state(run: UnixRun) -> UnixRunView {
        run@
    }

    closed spec fn reporter(&self) -> Sender<Event> {
        self.reporter
    }

    open spec fn reported(&self) -> Seq<EventView> {
        sent_events(self.reporter())
    }

    open spec fn channel(&self) -> int {
        channel_of(self.reporter())
    }

    closed spec fn clock(&self) -> Clock {
        self.clock
    }

    open spec fn awaits(run: UnixRunView, observed: UnixObserved) -> bool {
        run.awaits(observed)
    }

    open spec fn next(run: UnixRunView, observed: UnixObserved) -> UnixRunView {
        run.next(observed)
    }

    open spec fn reports(run: UnixRunView, observed: UnixObserved) -> bool {
        run.reports(observed)
    }

    open spec fn event(run: UnixRunView, observed: UnixObserved, time: Timestamp) -> Option<EventView> {
        run.event(observed, time)
    }

    fn run(&mut self, run: UnixRun, observed: UnixObserved) -> (next: UnixRun) {
        let ghost before = self.reported();
        if run.reports(&observed) {
            let time = now(&mut self.clock);
            let (next, event) = run.advance(observed, time);
            if let Some(event) = event {
                self.report(event);
            }
            assert(self.reported() == appended(before, Self::event(run@, observed, time)));
            next
        } else {
            let ghost time = Timestamp { seconds: 0, nanoseconds: 0 };
            assert(self.reported() == appended(before, Self::event(run@, observed, time)));
            run.proceed(observed)
        }
    }

    proof fn law_event_has_its_time(run: UnixRunView, observed: UnixObserved, time: Timestamp) {
    }
}

/// The executor for Unix.
pub fn executor(reporter: Sender<Event>) -> (executor: UnixExecutor)
    ensures
        executor.reporter() == reporter,
        executor.clock().readings() == Seq::<Timestamp>::empty(),
{
    UnixExecutor::new(reporter)
}

} // verus!
