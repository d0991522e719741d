//! What is reported about a supervised process.

use vstd::prelude::*;
use std::path::PathBuf;

verus! {

/// The identifier of a process, as events carry it.
pub type ProcessId = u32;

/// The exit code of a process.
pub type ExitCode = i32;

/// A point in time: the whole seconds since the Unix epoch, and the nanoseconds after them.
#[derive(Clone, Copy, Debug, PartialEq, Eq, Structural)]
pub struct Timestamp {
    pub seconds: i64,
    pub nanoseconds: u32,
}

/// Something that happened to a supervised process.
#[derive(Debug)]
pub enum Event {
    /// The process was started.
    Created {
        pid: ProcessId,
        ppid: ProcessId,
        cwd: PathBuf,
        program: PathBuf,
        args: Vec<String>,
        when: Timestamp,
    },
    /// The process exited by itself.
    TerminatedNormally { pid: ProcessId, code: ExitCode, when: Timestamp },
    /// The process was killed by a signal.
    TerminatedAbnormally { pid: ProcessId, signal: String, when: Timestamp },
    /// The process was suspended by a signal.
    Stopped { pid: ProcessId, signal: String, when: Timestamp },
    /// The process was resumed.
    Continued { pid: ProcessId, when: Timestamp },
}

/// What an `Event` says, with the texts as sequences of characters.
pub enum EventView {
    Created {
        pid: ProcessId,
        ppid: ProcessId,
        cwd: PathBuf,
        program: PathBuf,
        args: Seq<Seq<char>>,
        when: Timestamp,
    },
    TerminatedNormally { pid: ProcessId, code: ExitCode, when: Timestamp },
    TerminatedAbnormally { pid: ProcessId, signal: Seq<char>, when: Timestamp },
    Stopped { pid: ProcessId, signal: Seq<char>, when: Timestamp },
    Continued { pid: ProcessId, when: Timestamp },
}

/// The texts of a list of strings.
pub open spec fn texts(strings: Seq<String>) -> Seq<Seq<char>> {
    strings.map_values(|s: String| s@)
}

impl View for Event {
    type V = EventView;

    open spec fn view(&self) -> EventView {
        match *self {
            Event::Created { pid, ppid, cwd, program, args, when } => EventView::Created {
                pid,
                ppid,
                cwd,
                program,
                args: texts(args@),
                when,
            },
            Event::TerminatedNormally { pid, code, when } => EventView::TerminatedNormally {
                pid,
                code,
                when,
            },
            Event::TerminatedAbnormally { pid, signal, when } => EventView::TerminatedAbnormally {
                pid,
                signal: signal@,
                when,
            },
            Event::Stopped { pid, signal, when } => EventView::Stopped {
                pid,
                signal: signal@,
                when,
            },
            Event::Continued { pid, when } => EventView::Continued { pid, when },
        }
    }
}

impl EventView {
    /// The process that the event is about.
    pub open spec fn pid(self) -> ProcessId {
        match self {
            EventView::Created { pid, .. } => pid,
            EventView::TerminatedNormally { pid, .. } => pid,
            EventView::TerminatedAbnormally { pid, .. } => pid,
            EventView::Stopped { pid, .. } => pid,
            EventView::Continued { pid, .. } => pid,
        }
    }

    /// When the event happened.
    pub open spec fn time(self) -> Timestamp {
        match self {
            EventView::Created { when, .. } => when,
            EventView::TerminatedNormally { when, .. } => when,
            EventView::TerminatedAbnormally { when, .. } => when,
            EventView::Stopped { when, .. } => when,
            EventView::Continued { when, .. } => when,
        }
    }

    /// The same event at another time.
    pub open spec fn at(self, time: Timestamp) -> EventView {
        match self {
            EventView::Created { pid, ppid, cwd, program, args, .. } => EventView::Created {
                pid,
                ppid,
                cwd,
                program,
                args,
                when: time,
            },
            EventView::TerminatedNormally { pid, code, .. } => EventView::TerminatedNormally {
                pid,
                code,
                when: time,
            },
            EventView::TerminatedAbnormally { pid, signal, .. } =>
                EventView::TerminatedAbnormally { pid, signal, when: time },
            EventView::Stopped { pid, signal, .. } => EventView::Stopped {
                pid,
                signal,
                when: time,
            },
            EventView::Continued { pid, .. } => EventView::Continued { pid, when: time },
        }
    }

    /// The same event of another process.
    pub open spec fn of(self, pid: ProcessId) -> EventView {
        match self {
            EventView::Created { ppid, cwd, program, args, when, .. } => EventView::Created {
                pid,
                ppid,
                cwd,
                program,
                args,
                when,
            },
            EventView::TerminatedNormally { code, when, .. } => EventView::TerminatedNormally {
                pid,
                code,
                when,
            },
            EventView::TerminatedAbnormally { signal, when, .. } =>
                EventView::TerminatedAbnormally { pid, signal, when },
            EventView::Stopped { signal, when, .. } => EventView::Stopped { pid, signal, when },
            EventView::Continued { when, .. } => EventView::Continued { pid, when },
        }
    }

    /// The event says that the process is suspended or resumed, so it is still there.
    pub open spec fn is_progress(self) -> bool {
        self is Stopped || self is Continued
    }
}

/// The events are those of a process that was started and has not ended.
pub open spec fn is_running_report(events: Seq<EventView>) -> bool {
    &&& events.len() >= 1
    &&& events[0] is Created
    &&& forall|i: int| 1 <= i < events.len() ==> (#[trigger] events[i]).is_progress()
}

/// The events are those of a process that was started and has ended, with this exit code if it ended
/// by itself, and with 127 if it was killed.
pub open spec fn is_finished_report(events: Seq<EventView>, code: ExitCode) -> bool {
    &&& events.len() >= 2
    &&& is_running_report(events.drop_last())
    &&& match events.last() {
        EventView::TerminatedNormally { code: reported, .. } => reported == code,
        EventView::TerminatedAbnormally { .. } => code == 127,
        _ => false,
    }
}

/// All the events are about the same process.
pub open spec fn is_about_one_process(events: Seq<EventView>) -> bool {
    forall|i: int| 0 <= i < events.len() ==> (#[trigger] events[i]).pid() == events[0].pid()
}

impl Event {
    /// The process that the event is about.
    pub fn pid(&self) -> (pid: ProcessId)
        ensures
            pid == self@.pid(),
    {
        match self {
            Event::Created { pid, .. } => *pid,
            Event::TerminatedNormally { pid, .. } => *pid,
            Event::TerminatedAbnormally { pid, .. } => *pid,
            Event::Stopped { pid, .. } => *pid,
            Event::Continued { pid, .. } => *pid,
        }
    }
}

} // verus!
