//! Running a command with the means of any platform.

use vstd::prelude::*;
use std::path::PathBuf;
use std::sync::mpsc::Sender;
use crate::command::Command;
use crate::error::RunError;
use crate::event::{texts, Event, EventView, ExitCode, ProcessId, Timestamp};
use crate::executor::{appended, optional_view, Executor};
use crate::outside::{channel_of, now, send, sent_events, Clock};

verus! {

/// The exit code for a process that ended without one.
pub const UNKNOWN_CODE: ExitCode = 127;

/// A run, named after what the system has to be asked for next.
#[derive(Debug)]
pub enum GenericRun {
    /// The working directory of this process.
    GetDirectory { command: Command },
    /// To start the program of the command, in its environment, with these arguments.
    Spawn { command: Command, cwd: PathBuf, arguments: Vec<String> },
    /// The parent of this process.
    GetParent { command: Command, cwd: PathBuf, child: ProcessId },
    /// The end of the started process.
    Wait { pid: ProcessId },
    /// To panic, as the command does not even have the name of the program as an argument.
    Panic,
    /// Nothing, the run is over.
    Done { result: Result<ExitCode, RunError> },
}

/// What a `GenericRun` says, with the texts as sequences of characters.
pub enum GenericRunView {
    GetDirectory { command: Command },
    Spawn { command: Command, cwd: PathBuf, arguments: Seq<Seq<char>> },
    GetParent { command: Command, cwd: PathBuf, child: ProcessId },
    Wait { pid: ProcessId },
    Panic,
    Done { result: Result<ExitCode, RunError> },
}

impl View for GenericRun {
    type V = GenericRunView;

    open spec fn view(&self) -> GenericRunView {
        match *self {
            GenericRun::GetDirectory { command } => GenericRunView::GetDirectory { command },
            GenericRun::Spawn { command, cwd, arguments } => GenericRunView::Spawn {
                command,
                cwd,
                arguments: texts(arguments@),
            },
            GenericRun::GetParent { command, cwd, child } => GenericRunView::GetParent {
                command,
                cwd,
                child,
            },
            GenericRun::Wait { pid } => GenericRunView::Wait { pid },
            GenericRun::Panic => GenericRunView::Panic,
            GenericRun::Done { result } => GenericRunView::Done { result },
        }
    }
}

/// What the system answered.
#[derive(Debug)]
pub enum GenericObserved {
    Directory(Result<PathBuf, std::io::Error>),
    /// The identifier of the started process.
    Spawned(Result<ProcessId, std::io::Error>),
    Parent(ProcessId),
    /// The exit code of the process, if it ended with one.
    Waited(Result<Option<ExitCode>, std::io::Error>),
}

/// The exit code of a run whose process ended with this code, or without one.
pub open spec fn exit_code(ended: Option<ExitCode>) -> ExitCode {
    match ended {
        Some(code) => code,
        None => UNKNOWN_CODE,
    }
}

/// The event of a process that ended with this code, or without one.
pub open spec fn end_event(pid: ProcessId, ended: Option<ExitCode>, time: Timestamp) -> EventView {
    match ended {
        Some(code) => EventView::TerminatedNormally { pid, code, when: time },
        None => EventView::TerminatedAbnormally { pid, signal: "unknown"@, when: time },
    }
}

impl GenericRunView {
    /// The answer is one to what the run asks for.
    pub open spec fn awaits(self, observed: GenericObserved) -> bool {
        match self {
            GenericRunView::GetDirectory { .. } => observed is Directory,
            GenericRunView::Spawn { .. } => observed is Spawned,
            GenericRunView::GetParent { .. } => observed is Parent,
            GenericRunView::Wait { .. } => observed is Waited,
            GenericRunView::Panic => false,
            GenericRunView::Done { .. } => false,
        }
    }

    /// The run, after the answer.
    pub open spec fn next(self, observed: GenericObserved) -> GenericRunView {
        match (self, observed) {
            (GenericRunView::GetDirectory { command }, GenericObserved::Directory(directory)) =>
                match directory {
                    Ok(cwd) => if command.args@.len() == 0 {
                        GenericRunView::Panic
                    } else {
                        GenericRunView::Spawn {
                            command,
                            cwd,
                            // The first one is the name of the program.
                            arguments: texts(command.args@.skip(1)),
                        }
                    },
                    Err(e) => GenericRunView::Done { result: Err(RunError::CurrentDirectory(e)) },
                },
            (GenericRunView::Spawn { command, cwd, .. }, GenericObserved::Spawned(spawned)) =>
                match spawned {
                    Ok(child) => GenericRunView::GetParent { command, cwd, child },
                    Err(cause) => GenericRunView::Done {
                        result: Err(RunError::Spawn { program: command.program, cause }),
                    },
                },
            (
                GenericRunView::GetParent { child, .. },
                GenericObserved::Parent(_),
            ) => GenericRunView::Wait {
                pid: child,
            },
            (GenericRunView::Wait { .. }, GenericObserved::Waited(waited)) => match waited {
                Ok(ended) => GenericRunView::Done { result: Ok(exit_code(ended)) },
                Err(e) => GenericRunView::Done { result: Err(RunError::WaitSpawned(e)) },
            },
            _ => self,
        }
    }

    /// The answer gives rise to an event.
    pub open spec fn reports(self, observed: GenericObserved) -> bool {
        match (self, observed) {
            (GenericRunView::GetParent { .. }, GenericObserved::Parent(_)) => true,
            (GenericRunView::Wait { .. }, GenericObserved::Waited(Ok(_))) => true,
            _ => false,
        }
    }

    /// The event that the answer at this time gives rise to.
    pub open spec fn event(self, observed: GenericObserved, time: Timestamp) -> Option<
        EventView,
    > {
        match (self, observed) {
            (GenericRunView::GetParent { command, cwd, child }, GenericObserved::Parent(parent)) =>
                Some(
                    EventView::Created {
                        pid: child,
                        ppid: parent,
                        cwd,
                        program: command.program,
                        args: texts(command.args@),
                        when: time,
                    },
                ),
            (GenericRunView::Wait { pid }, GenericObserved::Waited(Ok(ended))) => Some(
                end_event(pid, ended, time),
            ),
            _ => None,
        }
    }
}

impl GenericRun {
    /// The run of a command, before its first step.
    pub fn new(command: Command) -> (run: GenericRun)
        ensures
            run@ == (GenericRunView::GetDirectory { command }),
    {
        GenericRun::GetDirectory { command }
    }

    /// Tells whether the answer is one to what the run asks for.
    pub fn awaits(&self, observed: &GenericObserved) -> (awaited: bool)
        ensures
            awaited == self@.awaits(*observed),
    {
        match (self, observed) {
            (GenericRun::GetDirectory { .. }, GenericObserved::Directory(_)) => true,
            (GenericRun::Spawn { .. }, GenericObserved::Spawned(_)) => true,
            (GenericRun::GetParent { .. }, GenericObserved::Parent(_)) => true,
            (GenericRun::Wait { .. }, GenericObserved::Waited(_)) => true,
            _ => false,
        }
    }

    /// Tells whether the answer gives rise to an event.
    pub fn reports(&self, observed: &GenericObserved) -> (reports: bool)
        ensures
            reports == self@.reports(*observed),
    {
        match (self, observed) {
            (GenericRun::GetParent { .. }, GenericObserved::Parent(_)) => true,
            (GenericRun::Wait { .. }, GenericObserved::Waited(Ok(_))) => true,
            _ => false,
        }
    }

    /// The run after the answer, and the event that the answer at this time gives rise to.
    pub fn advance(self, observed: GenericObserved, time: Timestamp) -> (step: (
        GenericRun,
        Option<Event>,
    ))
        requires
            self@.awaits(observed),
        ensures
            step.0@ == self@.next(observed),
            optional_view(step.1) == self@.event(observed, time),
    {
        match (self, observed) {
            (GenericRun::GetParent { command, cwd, child }, GenericObserved::Parent(parent)) => {
                let event = Event::Created {
                    pid: child,
                    ppid: parent,
                    cwd,
                    program: command.program,
                    args: command.args,
                    when: time,
                };
                (GenericRun::Wait { pid: child }, Some(event))
            },
            (GenericRun::Wait { pid }, GenericObserved::Waited(Ok(ended))) => {
                let (result, event) = wait(pid, ended, time);
                (GenericRun::Done { result: Ok(result) }, Some(event))
            },
            (run, observed) => (run.proceed(observed), None),
        }
    }

    /// The run after an answer that gives rise to no event.
    fn proceed(self, observed: GenericObserved) -> (next: GenericRun)
        requires
            self@.awaits(observed),
            !self@.reports(observed),
        ensures
            next@ == self@.next(observed),
    {
        match (self, observed) {
            (GenericRun::GetDirectory { command }, GenericObserved::Directory(directory)) =>
                match directory {
                    Ok(cwd) => if command.args.len() == 0 {
                        GenericRun::Panic
                    } else {
                        let arguments = command.arguments();
                        GenericRun::Spawn { command, cwd, arguments }
                    },
                    Err(e) => GenericRun::Done { result: Err(RunError::CurrentDirectory(e)) },
                },
            (GenericRun::Spawn { command, cwd, .. }, GenericObserved::Spawned(spawned)) =>
                match spawned {
                    Ok(child) => GenericRun::GetParent { command, cwd, child },
                    Err(cause) => GenericRun::Done {
                        result: Err(RunError::Spawn { program: command.program, cause }),
                    },
                },
            (GenericRun::Wait { .. }, GenericObserved::Waited(Err(e))) => GenericRun::Done {
                result: Err(RunError::WaitSpawned(e)),
            },
            (run, _) => run,
        }
    }
}

/// The exit code and the event of a process that ended with this code, or without one, at this time.
pub fn wait(pid: ProcessId, ended: Option<ExitCode>, time: Timestamp) -> (end: (ExitCode, Event))
    ensures
        end.0 == exit_code(ended),
        end.1@ == end_event(pid, ended, time),
{
    match ended {
        Some(code) => (code, Event::TerminatedNormally { pid, code, when: time }),
        None => {
            let event = Event::TerminatedAbnormally {
                pid,
                signal: "unknown".to_string(),
                when: time,
            };
            (UNKNOWN_CODE, event)
        },
    }
}

/// Runs commands with the means of any platform.
pub struct GenericExecutor {
    reporter: Sender<Event>,
    clock: Clock,
}

impl GenericExecutor {
    /// An executor that reports to the given channel.
    pub fn new(reporter: Sender<Event>) -> (executor: GenericExecutor)
        ensures
            executor.reporter() == reporter,
            executor.clock().readings() == Seq::<Timestamp>::empty(),
    {
        GenericExecutor { reporter, clock: Clock::new() }
    }

    /// Reports an event. Whether anybody receives it makes no difference.
    pub fn report(&mut self, event: Event)
        ensures
            final(self).reported() == old(self).reported().push(event@),
            final(self).channel() == old(self).channel(),
            final(self).clock() == old(self).clock(),
    {
        match send(&mut self.reporter, event) {
            Ok(_) => {},
            Err(_) => {},
        }
    }
}

impl Executor for GenericExecutor {
    type Run = GenericRun;

    type State = GenericRunView;

    type Observed = GenericObserved;

    open spec fn state(run: GenericRun) -> GenericRunView {
        run@
    }

    closed spec fn reporter(&self) -> Sender<Event> {
        self.reporter
    }

    open spec fn reported(&self) -> Seq<EventView> {
        sent_events(self.reporter())
    }

    open spec fn channel(&self) -> int {
        channel_of(self.reporter())
    }

    closed spec fn clock(&self) -> Clock {
        self.clock
    }

    open spec fn awaits(run: GenericRunView, observed: GenericObserved) -> bool {
        run.awaits(observed)
    }

    open spec fn next(run: GenericRunView, observed: GenericObserved) -> GenericRunView {
        run.next(observed)
    }

    open spec fn reports(run: GenericRunView, observed: GenericObserved) -> bool {
        run.reports(observed)
    }

    open spec fn event(run: GenericRunView, observed: GenericObserved, time: Timestamp) -> Option<
        EventView,
    > {
        run.event(observed, time)
    }

    fn run(&mut self, run: GenericRun, observed: GenericObserved) -> (next: GenericRun) {
        let ghost before = self.reported();
        if run.reports(&observed) {
            let time = now(&mut self.clock);
            let (next, event) = run.advance(observed, time);
            if let Some(event) = event {
                self.report(event);
            }
            assert(self.reported() == appended(before, Self::event(run@, observed, time)));
            next
        } else {
            let ghost time = Timestamp { seconds: 0, nanoseconds: 0 };
            assert(self.reported() == appended(before, Self::event(run@, observed, time)));
            run.proceed(observed)
        }
    }

    proof fn law_event_has_its_time(run: GenericRunView, observed: GenericObserved, time: Timestamp) {
    }
}

/// The executor for platforms other than Unix.
pub fn executor(reporter: Sender<Event>) -> (executor: GenericExecutor)
    ensures
        executor.reporter() == reporter,
        executor.clock().readings() == Seq::<Timestamp>::empty(),
{
    GenericExecutor::new(reporter)
}

/// The parent of this process where the system does not tell: the one that the environment names, or
/// zero.
pub fn get_parent_pid(named: Option<ProcessId>) -> (pid: ProcessId)
    ensures
        pid == (match named {
            Some(parent) => parent,
            None => 0,
        }),
{
    match named {
        Some(parent) => parent,
        None => 0,
    }
}

} // verus!
