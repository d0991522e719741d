//! What holds of every run.

pub mod outcomes;

use vstd::prelude::*;
use vstd::utf8::*;
use std::path::PathBuf;
use crate::command::{Command, ExecCallView};
use crate::error::RunError;
use crate::event::{
    is_about_one_process, is_finished_report, is_running_report, texts, EventView, ExitCode,
    ProcessId, Timestamp,
};
use crate::executor::{all_awaited, appended, events_after, run_after, Executor};
use crate::flags::wait_bits;
use crate::generic::{
    end_event, exit_code, GenericExecutor, GenericObserved, GenericRunView,
};
use crate::unix::{
    telling, UnixExecutor, UnixObserved, UnixRunView, WaitOutcome, MESSAGE_SIZE,
};

verus! {

/// An executor that takes a run through the answers, one call of `run` after the other, adds exactly
/// the events of the answers to what it has reported. `reported[i]` is what it has reported after the
/// first `i` calls.
pub proof fn law_reports_add_up<E: Executor>(
    run: E::State,
    answers: Seq<(E::Observed, Timestamp)>,
    reported: Seq<Seq<EventView>>,
)
    requires
        reported.len() == answers.len() + 1,
        forall|i: int|
            0 <= i < answers.len() ==> #[trigger] reported[i + 1] == appended(
                reported[i],
                E::event(run_after::<E>(run, answers.take(i)), answers[i].0, answers[i].1),
            ),
    ensures
        reported.last() == reported[0] + events_after::<E>(run, answers),
    decreases answers.len(),
{
    if answers.len() == 0 {
        assert(reported[0] + Seq::<EventView>::empty() =~= reported[0]);
    } else {
        let before = answers.drop_last();
        let n = before.len() as int;
        assert forall|i: int| 0 <= i < before.len() implies #[trigger] reported.drop_last()[i + 1]
            == appended(
            reported.drop_last()[i],
            E::event(run_after::<E>(run, before.take(i)), before[i].0, before[i].1),
        ) by {
            assert(before.take(i) =~= answers.take(i));
            assert(reported[i + 1] == reported.drop_last()[i + 1]);
        }
        law_reports_add_up::<E>(run, before, reported.drop_last());
        assert(before =~= answers.take(n));
        assert(reported[n + 1] == reported.last());
        assert(reported.last() =~= reported[0] + events_after::<E>(run, answers));
    }
}

/// Where a command is run: the working directory of the process that runs it, and its parent.
pub struct Setting {
    pub cwd: PathBuf,
    pub parent: ProcessId,
}

/// The event announces the process of the command, with the setting that the command was run in.
pub open spec fn announces(event: EventView, command: Command, setting: Setting) -> bool {
    &&& event is Created
    &&& event->program == command.program
    &&& event->args == texts(command.args@)
    &&& event->cwd == setting.cwd
    &&& event->ppid == setting.parent
}

/// The system tells of this setting, where it is asked for the directory and the parent.
pub open spec fn unix_told(answers: Seq<(UnixObserved, Timestamp)>, setting: Setting) -> bool {
    forall|i: int| 0 <= i < answers.len() ==> match (#[trigger] answers[i]).0 {
        UnixObserved::Directory(Ok(cwd)) => cwd == setting.cwd,
        UnixObserved::Parent(parent) => parent as ProcessId == setting.parent,
        _ => true,
    }
}

/// The system tells of this setting, where it is asked for the directory and the parent.
pub open spec fn generic_told(answers: Seq<(GenericObserved, Timestamp)>, setting: Setting) -> bool {
    forall|i: int| 0 <= i < answers.len() ==> match (#[trigger] answers[i]).0 {
        GenericObserved::Directory(Ok(cwd)) => cwd == setting.cwd,
        GenericObserved::Parent(parent) => parent == setting.parent,
        _ => true,
    }
}

/// The events that a run of the command with this result, or without one yet, has reported in this
/// setting.
pub open spec fn unix_reports(
    run: UnixRunView,
    events: Seq<EventView>,
    command: Command,
    setting: Setting,
) -> bool {
    match run {
        UnixRunView::Wait { .. } => {
            &&& is_running_report(events)
            &&& announces(events[0], command, setting)
        },
        UnixRunView::Done { result: Ok(code) } => {
            &&& is_finished_report(events, code)
            &&& announces(events[0], command, setting)
        },
        UnixRunView::Done { result: Err(RunError::Wait(_)) } => {
            &&& is_running_report(events)
            &&& announces(events[0], command, setting)
        },
        _ => events == Seq::<EventView>::empty(),
    }
}

/// The run, as long as nothing is reported, still holds the command and the directory.
spec fn unix_holds(run: UnixRunView, command: Command, cwd: PathBuf) -> bool {
    match run {
        UnixRunView::GetDirectory { command: c, .. } => c == command,
        UnixRunView::CreatePipe { command: c, cwd: d, .. } => c == command && d == cwd,
        UnixRunView::Fork { command: c, cwd: d, .. } => c == command && d == cwd,
        UnixRunView::CloseWriteEnd { command: c, cwd: d, .. } => c == command && d == cwd,
        UnixRunView::ReadPipe { command: c, cwd: d, .. } => c == command && d == cwd,
        UnixRunView::CloseReadEnd { command: c, cwd: d, spawned, .. } => {
            &&& c == command && d == cwd
            &&& spawned matches Err(e) ==> e is Child || e is PipeRead
        },
        UnixRunView::GetParent { command: c, cwd: d, .. } => c == command && d == cwd,
        _ => true,
    }
}

/// Every run reports in order: nothing before the child is known to execute the program, then that
/// the process was created, then each time it is suspended or resumed, and as the last thing how it
/// ended, which goes with the result of the run. A run that fails before the program is executed
/// reports nothing. The first event names the program and the arguments of the command, and the
/// directory and the parent that the system told of.
pub proof fn law_unix_events_in_order(
    command: Command,
    stopped: bool,
    setting: Setting,
    answers: Seq<(UnixObserved, Timestamp)>,
)
    requires
        all_awaited::<UnixExecutor>(UnixRunView::GetDirectory { command, stopped }, answers),
        unix_told(answers, setting),
    ensures
        unix_reports(
            run_after::<UnixExecutor>(UnixRunView::GetDirectory { command, stopped }, answers),
            events_after::<UnixExecutor>(UnixRunView::GetDirectory { command, stopped }, answers),
            command,
            setting,
        ),
{
    lemma_unix_events_in_order(command, stopped, setting, answers);
}

proof fn lemma_unix_told_before(answers: Seq<(UnixObserved, Timestamp)>, setting: Setting)
    requires
        unix_told(answers, setting),
        answers.len() > 0,
    ensures
        unix_told(answers.drop_last(), setting),
{
    assert forall|i: int| 0 <= i < answers.drop_last().len() implies match (
    #[trigger] answers.drop_last()[i]).0 {
        UnixObserved::Directory(Ok(cwd)) => cwd == setting.cwd,
        UnixObserved::Parent(parent) => parent as ProcessId == setting.parent,
        _ => true,
    } by {
        assert(answers.drop_last()[i] == answers[i]);
    }
}

proof fn lemma_unix_events_in_order(
    command: Command,
    stopped: bool,
    setting: Setting,
    answers: Seq<(UnixObserved, Timestamp)>,
)
    requires
        all_awaited::<UnixExecutor>(UnixRunView::GetDirectory { command, stopped }, answers),
        unix_told(answers, setting),
    ensures
        ({
            let start = UnixRunView::GetDirectory { command, stopped };
            let run = run_after::<UnixExecutor>(start, answers);
            &&& unix_reports(run, events_after::<UnixExecutor>(start, answers), command, setting)
            &&& unix_holds(run, command, setting.cwd)
            &&& answers.len() >= 1 ==> !(run is GetDirectory)
        }),
    decreases answers.len(),
{
    if answers.len() > 0 {
        let start = UnixRunView::GetDirectory { command, stopped };
        let before = answers.drop_last();
        lemma_unix_told_before(answers, setting);
        lemma_unix_events_in_order(command, stopped, setting, before);
        let run = run_after::<UnixExecutor>(start, before);
        let events = events_after::<UnixExecutor>(start, before);
        let (observed, time) = answers.last();
        assert(answers[answers.len() - 1] == (observed, time));
        assert(run.awaits(observed));
        let event = run.event(observed, time);
        assert(events_after::<UnixExecutor>(start, answers) == appended(events, event));
        if event is Some {
            assert(events.push(event->0).drop_last() =~= events);
        }
    }
}

/// What the system says of a change is about the process that the run waits for.
pub open spec fn unix_about_awaited(run: UnixRunView, observed: UnixObserved) -> bool {
    match (run, observed) {
        (UnixRunView::Wait { pid: awaited, .. }, UnixObserved::Waited(Ok(outcome))) => match outcome {
            WaitOutcome::Exited { pid, .. } => pid == awaited,
            WaitOutcome::Signaled { pid, .. } => pid == awaited,
            WaitOutcome::Stopped { pid, .. } => pid == awaited,
            WaitOutcome::Continued { pid } => pid == awaited,
            WaitOutcome::Other => true,
        },
        _ => true,
    }
}

/// Each time, what the system says of a change is about the process that the run waits for.
pub open spec fn unix_all_about_awaited(
    run: UnixRunView,
    answers: Seq<(UnixObserved, Timestamp)>,
) -> bool
    decreases answers.len(),
{
    answers.len() == 0 || {
        &&& unix_all_about_awaited(run, answers.drop_last())
        &&& unix_about_awaited(
            run_after::<UnixExecutor>(run, answers.drop_last()),
            answers.last().0,
        )
    }
}

/// All the events of a run are about the same process, the one that is waited for, provided that the
/// system tells of no other.
pub proof fn law_unix_events_about_one_process(
    command: Command,
    stopped: bool,
    answers: Seq<(UnixObserved, Timestamp)>,
)
    requires
        all_awaited::<UnixExecutor>(UnixRunView::GetDirectory { command, stopped }, answers),
        unix_all_about_awaited(UnixRunView::GetDirectory { command, stopped }, answers),
    ensures
        ({
            let start = UnixRunView::GetDirectory { command, stopped };
            let run = run_after::<UnixExecutor>(start, answers);
            let events = events_after::<UnixExecutor>(start, answers);
            &&& is_about_one_process(events)
            &&& match run {
                UnixRunView::Wait { pid, .. } => events.len() >= 1 && events[0].pid() == pid as ProcessId,
                UnixRunView::Done { .. } => true,
                _ => events.len() == 0,
            }
        }),
    decreases answers.len(),
{
    if answers.len() > 0 {
        let start = UnixRunView::GetDirectory { command, stopped };
        let before = answers.drop_last();
        law_unix_events_about_one_process(command, stopped, before);
        let run = run_after::<UnixExecutor>(start, before);
        let (observed, time) = answers.last();
        assert(run.awaits(observed));
        assert(unix_about_awaited(run, observed));
        assert(events_after::<UnixExecutor>(start, answers) == appended(
            events_after::<UnixExecutor>(start, before),
            run.event(observed, time),
        ));
    }
}

/// A run that comes to an exit code has reported, all about the same process: that it was created,
/// then each time it was suspended or resumed, and as the last thing how it ended. So there are at
/// least two events. The system is to tell of no other process than the one that is waited for.
pub proof fn law_unix_finished_run(
    command: Command,
    stopped: bool,
    setting: Setting,
    answers: Seq<(UnixObserved, Timestamp)>,
    code: ExitCode,
)
    requires
        all_awaited::<UnixExecutor>(UnixRunView::GetDirectory { command, stopped }, answers),
        unix_told(answers, setting),
        unix_all_about_awaited(UnixRunView::GetDirectory { command, stopped }, answers),
        run_after::<UnixExecutor>(UnixRunView::GetDirectory { command, stopped }, answers) == (
        UnixRunView::Done { result: Ok(code) }),
    ensures
        ({
            let events = events_after::<UnixExecutor>(
                UnixRunView::GetDirectory { command, stopped },
                answers,
            );
            &&& events.len() >= 2
            &&& is_finished_report(events, code)
            &&& announces(events[0], command, setting)
            &&& is_about_one_process(events)
        }),
{
    law_unix_events_in_order(command, stopped, setting, answers);
    law_unix_events_about_one_process(command, stopped, answers);
}

/// The first event that the parent reports is about the child that the fork created, and the run then
/// waits for that child.
pub proof fn law_unix_created_names_child(
    command: Command,
    stopped: bool,
    cwd: PathBuf,
    child: i32,
    read_fd: i32,
    write_fd: i32,
    answers: Seq<(UnixObserved, Timestamp)>,
)
    requires
        all_awaited::<UnixExecutor>(
            UnixRunView::CloseWriteEnd { command, stopped, cwd, child, read_fd, write_fd },
            answers,
        ),
        unix_all_about_awaited(
            UnixRunView::CloseWriteEnd { command, stopped, cwd, child, read_fd, write_fd },
            answers,
        ),
    ensures
        ({
            let start = UnixRunView::CloseWriteEnd { command, stopped, cwd, child, read_fd, write_fd };
            let run = run_after::<UnixExecutor>(start, answers);
            let events = events_after::<UnixExecutor>(start, answers);
            &&& events.len() >= 1 ==> events[0] is Created && events[0].pid() == child as ProcessId
            &&& match run {
                UnixRunView::CloseWriteEnd { child: c, .. } => c == child && events.len() == 0,
                UnixRunView::ReadPipe { child: c, .. } => c == child && events.len() == 0,
                UnixRunView::CloseReadEnd { spawned, .. } => {
                    &&& spawned matches Ok(c) ==> c == child
                    &&& events.len() == 0
                },
                UnixRunView::GetParent { child: c, .. } => c == child && events.len() == 0,
                UnixRunView::Wait { pid, .. } => pid == child && events.len() >= 1,
                UnixRunView::Done { .. } => true,
                _ => false,
            }
        }),
    decreases answers.len(),
{
    if answers.len() > 0 {
        let start = UnixRunView::CloseWriteEnd { command, stopped, cwd, child, read_fd, write_fd };
        let before = answers.drop_last();
        law_unix_created_names_child(command, stopped, cwd, child, read_fd, write_fd, before);
        let run = run_after::<UnixExecutor>(start, before);
        let (observed, time) = answers.last();
        assert(run.awaits(observed));
        assert(unix_about_awaited(run, observed));
        assert(events_after::<UnixExecutor>(start, answers) == appended(
            events_after::<UnixExecutor>(start, before),
            run.event(observed, time),
        ));
    }
}

/// A run waits with the same options each time, those for the platform that it was made for.
pub proof fn law_unix_waits_with_flags(
    command: Command,
    stopped: bool,
    answers: Seq<(UnixObserved, Timestamp)>,
)
    requires
        all_awaited::<UnixExecutor>(UnixRunView::GetDirectory { command, stopped }, answers),
    ensures
        run_after::<UnixExecutor>(
            UnixRunView::GetDirectory { command, stopped },
            answers,
        ) matches UnixRunView::Wait { options, .. } ==> options == Some(wait_bits(stopped)),
{
    lemma_unix_keeps_stopped(command, stopped, answers);
}

/// The run, as long as it does not wait, still holds whether the option for stops is to be set.
spec fn unix_keeps_stopped(run: UnixRunView, stopped: bool) -> bool {
    match run {
        UnixRunView::GetDirectory { stopped: s, .. } => s == stopped,
        UnixRunView::CreatePipe { stopped: s, .. } => s == stopped,
        UnixRunView::Fork { stopped: s, .. } => s == stopped,
        UnixRunView::CloseWriteEnd { stopped: s, .. } => s == stopped,
        UnixRunView::ReadPipe { stopped: s, .. } => s == stopped,
        UnixRunView::CloseReadEnd { stopped: s, .. } => s == stopped,
        UnixRunView::GetParent { stopped: s, .. } => s == stopped,
        UnixRunView::Wait { options, .. } => options == Some(wait_bits(stopped)),
        _ => true,
    }
}

proof fn lemma_unix_keeps_stopped(
    command: Command,
    stopped: bool,
    answers: Seq<(UnixObserved, Timestamp)>,
)
    requires
        all_awaited::<UnixExecutor>(UnixRunView::GetDirectory { command, stopped }, answers),
    ensures
        unix_keeps_stopped(
            run_after::<UnixExecutor>(UnixRunView::GetDirectory { command, stopped }, answers),
            stopped,
        ),
    decreases answers.len(),
{
    if answers.len() > 0 {
        let start = UnixRunView::GetDirectory { command, stopped };
        let before = answers.drop_last();
        lemma_unix_keeps_stopped(command, stopped, before);
        assert(run_after::<UnixExecutor>(start, before).awaits(answers.last().0));
    }
}

/// A status that says nothing of an end, a stop or a continuation makes no difference: with it or
/// without it, whatever comes later, the run goes the same way and reports the same events.
pub proof fn law_unix_other_status_is_ignored(
    run: UnixRunView,
    before: Seq<(UnixObserved, Timestamp)>,
    time: Timestamp,
    after: Seq<(UnixObserved, Timestamp)>,
)
    requires
        run_after::<UnixExecutor>(run, before) is Wait,
    ensures
        ({
            let other = (UnixObserved::Waited(Ok(WaitOutcome::Other)), time);
            let with = before.push(other) + after;
            let without = before + after;
            &&& run_after::<UnixExecutor>(run, with) == run_after::<UnixExecutor>(run, without)
            &&& events_after::<UnixExecutor>(run, with) == events_after::<UnixExecutor>(run, without)
            &&& all_awaited::<UnixExecutor>(run, with) == all_awaited::<UnixExecutor>(run, without)
        }),
    decreases after.len(),
{
    let other = (UnixObserved::Waited(Ok(WaitOutcome::Other)), time);
    let with = before.push(other) + after;
    let without = before + after;
    if after.len() == 0 {
        assert(with =~= before.push(other));
        assert(without =~= before);
        assert(before.push(other).drop_last() =~= before);
    } else {
        law_unix_other_status_is_ignored(run, before, time, after.drop_last());
        assert(with.drop_last() =~= before.push(other) + after.drop_last());
        assert(without.drop_last() =~= before + after.drop_last());
        assert(with.last() == after.last());
        assert(without.last() == after.last());
    }
}

/// A run that is over asks for nothing, so it goes nowhere and reports nothing any more.
pub proof fn law_unix_over_is_over(run: UnixRunView, observed: UnixObserved)
    requires
        run is Done || run is Exit || run is Panic,
    ensures
        !run.awaits(observed),
{
}

/// What the run closes when it goes on with this answer.
pub open spec fn unix_closes(run: UnixRunView, observed: UnixObserved) -> Seq<i32> {
    match (run, observed) {
        (UnixRunView::CloseWriteEnd { write_fd, .. }, UnixObserved::Closed) => seq![write_fd],
        (UnixRunView::CloseReadEnd { read_fd, .. }, UnixObserved::Closed) => seq![read_fd],
        (UnixRunView::CloseReadEndInChild { read_fd, .. }, UnixObserved::Closed) => seq![read_fd],
        _ => seq![],
    }
}

/// What the run closed in the course of the answers.
pub open spec fn unix_closed_after(run: UnixRunView, answers: Seq<(UnixObserved, Timestamp)>) -> Seq<i32>
    decreases answers.len(),
{
    if answers.len() == 0 {
        seq![]
    } else {
        unix_closed_after(run, answers.drop_last()) + unix_closes(
            run_after::<UnixExecutor>(run, answers.drop_last()),
            answers.last().0,
        )
    }
}

/// What the parent has closed at each point after the fork.
spec fn unix_in_parent(run: UnixRunView, closed: Seq<i32>, read_fd: i32, write_fd: i32) -> bool {
    match run {
        UnixRunView::CloseWriteEnd { read_fd: r, write_fd: w, .. } => {
            r == read_fd && w == write_fd && closed == Seq::<i32>::empty()
        },
        UnixRunView::ReadPipe { read_fd: r, .. } => r == read_fd && closed == seq![write_fd],
        UnixRunView::CloseReadEnd { read_fd: r, .. } => r == read_fd && closed == seq![write_fd],
        UnixRunView::GetParent { .. } => closed == seq![write_fd, read_fd],
        UnixRunView::Wait { .. } => closed == seq![write_fd, read_fd],
        UnixRunView::Done { .. } => closed == seq![write_fd, read_fd],
        _ => false,
    }
}

/// The parent closes both ends of the pipe once, first the one that the child writes to, before it
/// waits for the child or gives up.
pub proof fn law_unix_parent_closes_pipe(
    command: Command,
    stopped: bool,
    cwd: PathBuf,
    child: i32,
    read_fd: i32,
    write_fd: i32,
    answers: Seq<(UnixObserved, Timestamp)>,
)
    requires
        all_awaited::<UnixExecutor>(
            UnixRunView::CloseWriteEnd { command, stopped, cwd, child, read_fd, write_fd },
            answers,
        ),
    ensures
        ({
            let start = UnixRunView::CloseWriteEnd { command, stopped, cwd, child, read_fd, write_fd };
            let run = run_after::<UnixExecutor>(start, answers);
            run is GetParent || run is Wait || run is Done ==> unix_closed_after(start, answers)
                == seq![write_fd, read_fd]
        }),
{
    lemma_unix_parent_closes_pipe(command, stopped, cwd, child, read_fd, write_fd, answers);
}

proof fn lemma_unix_parent_closes_pipe(
    command: Command,
    stopped: bool,
    cwd: PathBuf,
    child: i32,
    read_fd: i32,
    write_fd: i32,
    answers: Seq<(UnixObserved, Timestamp)>,
)
    requires
        all_awaited::<UnixExecutor>(
            UnixRunView::CloseWriteEnd { command, stopped, cwd, child, read_fd, write_fd },
            answers,
        ),
    ensures
        unix_in_parent(
            run_after::<UnixExecutor>(
                UnixRunView::CloseWriteEnd { command, stopped, cwd, child, read_fd, write_fd },
                answers,
            ),
            unix_closed_after(
                UnixRunView::CloseWriteEnd { command, stopped, cwd, child, read_fd, write_fd },
                answers,
            ),
            read_fd,
            write_fd,
        ),
    decreases answers.len(),
{
    if answers.len() > 0 {
        let start = UnixRunView::CloseWriteEnd { command, stopped, cwd, child, read_fd, write_fd };
        let before = answers.drop_last();
        lemma_unix_parent_closes_pipe(command, stopped, cwd, child, read_fd, write_fd, before);
        let run = run_after::<UnixExecutor>(start, before);
        assert(run.awaits(answers.last().0));
        let closed = unix_closed_after(start, before);
        assert(closed + Seq::<i32>::empty() =~= closed);
        assert(Seq::<i32>::empty() + seq![write_fd] =~= seq![write_fd]);
        assert(seq![write_fd] + seq![read_fd] =~= seq![write_fd, read_fd]);
    }
}

/// The child reports nothing and closes nothing but its end to read from. What it has executed is the
/// call of the command, after its end to write to was given the flag to be closed by that. It exits
/// with status 1 or panics, unless the program is replaced; a run never waits for anything in it.
pub proof fn law_unix_child_is_silent(
    command: Command,
    read_fd: i32,
    write_fd: i32,
    answers: Seq<(UnixObserved, Timestamp)>,
)
    requires
        all_awaited::<UnixExecutor>(
            UnixRunView::CloseReadEndInChild { command, read_fd, write_fd },
            answers,
        ),
    ensures
        ({
            let start = UnixRunView::CloseReadEndInChild { command, read_fd, write_fd };
            let run = run_after::<UnixExecutor>(start, answers);
            &&& events_after::<UnixExecutor>(start, answers) == Seq::<EventView>::empty()
            &&& unix_closed_after(start, answers) == if answers.len() == 0 {
                Seq::<i32>::empty()
            } else {
                seq![read_fd]
            }
            &&& match run {
                UnixRunView::CloseReadEndInChild { .. } => answers.len() == 0,
                UnixRunView::GetFlags { command: c, write_fd: w } => c == command && w == write_fd,
                UnixRunView::SetFlags { command: c, write_fd: w, flags } => {
                    c == command && w == write_fd && flags == 1
                },
                UnixRunView::Execute { call, write_fd: w } => {
                    command.call() == Ok::<_, RunError>(call) && w == write_fd
                },
                UnixRunView::WriteMessage { write_fd: w, .. } => w == write_fd,
                UnixRunView::Exit { status } => status == 1,
                UnixRunView::Panic { .. } => true,
                UnixRunView::Done { result } => result is Err && result->Err_0 is Execved,
                _ => false,
            }
        }),
    decreases answers.len(),
{
    if answers.len() > 0 {
        let start = UnixRunView::CloseReadEndInChild { command, read_fd, write_fd };
        let before = answers.drop_last();
        law_unix_child_is_silent(command, read_fd, write_fd, before);
        let run = run_after::<UnixExecutor>(start, before);
        assert(run.awaits(answers.last().0));
        let closed = unix_closed_after(start, before);
        assert(closed + Seq::<i32>::empty() =~= closed);
        assert(Seq::<i32>::empty() + seq![read_fd] =~= seq![read_fd]);
    }
}

/// The child tells of a command that cannot be passed to the system without asking the system to
/// execute anything.
pub proof fn law_unix_refused_command_is_told(
    command: Command,
    write_fd: i32,
    flags: i32,
    error: RunError,
)
    requires
        command.call() == Err::<ExecCallView, RunError>(error),
    ensures
        (UnixRunView::SetFlags { command, write_fd, flags }).next(UnixObserved::FlagsSet(Ok(())))
            == telling(write_fd, error),
{
}

/// The message of a child that could not execute its program becomes the message of the error that
/// the parent's run ends with: what was read is the message, whatever else the buffer holds.
pub proof fn law_unix_child_message_reaches_parent(
    error: RunError,
    command: Command,
    stopped: bool,
    cwd: PathBuf,
    child: i32,
    read_fd: i32,
    write_fd: i32,
    buffer: Vec<u8>,
    count: usize,
)
    requires
        1 <= count <= buffer@.len(),
        buffer@.take(count as int) == telling(write_fd, error)->message,
    ensures
        ({
            let reading = UnixRunView::ReadPipe {
                command,
                stopped,
                cwd,
                child,
                read_fd,
                size: MESSAGE_SIZE,
            };
            let answer = UnixObserved::Read { buffer, count: Ok(count) };
            let over = UnixRunView::Done { result: Err(RunError::Child { buffer, count }) };
            reading.next(answer).next(UnixObserved::Closed) == over
        }),
        (RunError::Child { buffer, count }).text() == error.text(),
{
    encode_utf8_valid_utf8(error.text());
    encode_utf8_decode_utf8(error.text());
}

/// The events that a run of the command with this result, or without one yet, has reported in this
/// setting.
pub open spec fn generic_reports(
    run: GenericRunView,
    events: Seq<EventView>,
    command: Command,
    setting: Setting,
) -> bool {
    match run {
        GenericRunView::Wait { pid } => {
            &&& events.len() == 1
            &&& announces(events[0], command, setting)
            &&& events[0].pid() == pid
        },
        GenericRunView::Done { result: Ok(code) } => {
            &&& events.len() == 2
            &&& is_finished_report(events, code)
            &&& announces(events[0], command, setting)
            &&& events[1] is TerminatedAbnormally ==> events[1]->TerminatedAbnormally_signal
                == "unknown"@
        },
        GenericRunView::Done { result: Err(RunError::WaitSpawned(_)) } => {
            &&& events.len() == 1
            &&& announces(events[0], command, setting)
        },
        _ => events == Seq::<EventView>::empty(),
    }
}

/// The run, as long as nothing is reported, still holds the command and the directory.
spec fn generic_holds(run: GenericRunView, command: Command, cwd: PathBuf) -> bool {
    match run {
        GenericRunView::GetDirectory { command: c } => c == command,
        GenericRunView::Spawn { command: c, cwd: d, .. } => c == command && d == cwd,
        GenericRunView::GetParent { command: c, cwd: d, .. } => c == command && d == cwd,
        _ => true,
    }
}

/// Every run reports in order, and about one process: nothing before the program is started, then
/// that the process was created, and then how it ended, which goes with the result of the run. A run
/// that could not start the program reports nothing. The first event names the program and the
/// arguments of the command, and the directory and the parent that the system told of. An end without
/// an exit code is reported with the signal "unknown".
pub proof fn law_generic_events_in_order(
    command: Command,
    setting: Setting,
    answers: Seq<(GenericObserved, Timestamp)>,
)
    requires
        all_awaited::<GenericExecutor>(GenericRunView::GetDirectory { command }, answers),
        generic_told(answers, setting),
    ensures
        generic_reports(
            run_after::<GenericExecutor>(GenericRunView::GetDirectory { command }, answers),
            events_after::<GenericExecutor>(GenericRunView::GetDirectory { command }, answers),
            command,
            setting,
        ),
        is_about_one_process(
            events_after::<GenericExecutor>(GenericRunView::GetDirectory { command }, answers),
        ),
{
    lemma_generic_events_in_order(command, setting, answers);
}

proof fn lemma_generic_told_before(answers: Seq<(GenericObserved, Timestamp)>, setting: Setting)
    requires
        generic_told(answers, setting),
        answers.len() > 0,
    ensures
        generic_told(answers.drop_last(), setting),
{
    assert forall|i: int| 0 <= i < answers.drop_last().len() implies match (
    #[trigger] answers.drop_last()[i]).0 {
        GenericObserved::Directory(Ok(cwd)) => cwd == setting.cwd,
        GenericObserved::Parent(parent) => parent == setting.parent,
        _ => true,
    } by {
        assert(answers.drop_last()[i] == answers[i]);
    }
}

proof fn lemma_generic_events_in_order(
    command: Command,
    setting: Setting,
    answers: Seq<(GenericObserved, Timestamp)>,
)
    requires
        all_awaited::<GenericExecutor>(GenericRunView::GetDirectory { command }, answers),
        generic_told(answers, setting),
    ensures
        ({
            let start = GenericRunView::GetDirectory { command };
            let run = run_after::<GenericExecutor>(start, answers);
            let events = events_after::<GenericExecutor>(start, answers);
            &&& generic_reports(run, events, command, setting)
            &&& is_about_one_process(events)
            &&& generic_holds(run, command, setting.cwd)
            &&& answers.len() >= 1 ==> !(run is GetDirectory)
        }),
    decreases answers.len(),
{
    if answers.len() > 0 {
        let start = GenericRunView::GetDirectory { command };
        let before = answers.drop_last();
        lemma_generic_told_before(answers, setting);
        lemma_generic_events_in_order(command, setting, before);
        let run = run_after::<GenericExecutor>(start, before);
        let events = events_after::<GenericExecutor>(start, before);
        let (observed, time) = answers.last();
        assert(answers[answers.len() - 1] == (observed, time));
        assert(run.awaits(observed));
        let event = run.event(observed, time);
        assert(events_after::<GenericExecutor>(start, answers) == appended(events, event));
        if event is Some {
            assert(events.push(event->0).drop_last() =~= events);
        }
    }
}

/// A run starts the program of its command with the arguments of the command but the first. It
/// panics in place of that only if there is not even the first.
pub proof fn law_generic_starts_with_arguments(
    command: Command,
    answers: Seq<(GenericObserved, Timestamp)>,
)
    requires
        all_awaited::<GenericExecutor>(GenericRunView::GetDirectory { command }, answers),
    ensures
        match run_after::<GenericExecutor>(GenericRunView::GetDirectory { command }, answers) {
            GenericRunView::GetDirectory { command: c } => c == command,
            GenericRunView::Spawn { command: c, arguments, .. } => {
                &&& c == command
                &&& command.args@.len() >= 1
                &&& arguments == texts(command.args@.skip(1))
            },
            GenericRunView::Panic => command.args@.len() == 0,
            _ => true,
        },
    decreases answers.len(),
{
    if answers.len() > 0 {
        let start = GenericRunView::GetDirectory { command };
        let before = answers.drop_last();
        law_generic_starts_with_arguments(command, before);
        assert(run_after::<GenericExecutor>(start, before).awaits(answers.last().0));
    }
}

/// The system keeps how a process ended. So to wait for it again, at another time, gives the same
/// result and the same event, but for its time.
pub proof fn law_generic_wait_again(
    pid: ProcessId,
    ended: Option<ExitCode>,
    first: Timestamp,
    again: Timestamp,
)
    ensures
        end_event(pid, ended, again) == end_event(pid, ended, first).at(again),
        ({
            let waiting = GenericRunView::Wait { pid };
            let answer = GenericObserved::Waited(Ok(ended));
            &&& waiting.next(answer) == (GenericRunView::Done { result: Ok(exit_code(ended)) })
            &&& waiting.event(answer, first) == Some(end_event(pid, ended, first))
            &&& waiting.event(answer, again) == Some(end_event(pid, ended, first).at(again))
        }),
{
}

/// Both kinds of executors report alike: where a run on Unix comes to an exit code with no more than
/// the start of the process and its normal end reported, a run of the same command in the same
/// setting whose process exits with this code comes to it too, and reports the same two events, but
/// for the process and the times.
pub proof fn law_executors_report_alike(
    command: Command,
    setting: Setting,
    code: ExitCode,
    stopped: bool,
    unix_answers: Seq<(UnixObserved, Timestamp)>,
    generic_answers: Seq<(GenericObserved, Timestamp)>,
)
    requires
        all_awaited::<UnixExecutor>(UnixRunView::GetDirectory { command, stopped }, unix_answers),
        unix_told(unix_answers, setting),
        run_after::<UnixExecutor>(UnixRunView::GetDirectory { command, stopped }, unix_answers) == (
        UnixRunView::Done { result: Ok(code) }),
        events_after::<UnixExecutor>(
            UnixRunView::GetDirectory { command, stopped },
            unix_answers,
        ).len() == 2,
        events_after::<UnixExecutor>(
            UnixRunView::GetDirectory { command, stopped },
            unix_answers,
        ).last() is TerminatedNormally,
        all_awaited::<GenericExecutor>(GenericRunView::GetDirectory { command }, generic_answers),
        generic_told(generic_answers, setting),
        generic_answers.len() >= 1,
        generic_answers.last().0 == GenericObserved::Waited(Ok(Some(code))),
    ensures
        run_after::<GenericExecutor>(GenericRunView::GetDirectory { command }, generic_answers) == (
        GenericRunView::Done { result: Ok(code) }),
        ({
            let on_unix = events_after::<UnixExecutor>(
                UnixRunView::GetDirectory { command, stopped },
                unix_answers,
            );
            let generic = events_after::<GenericExecutor>(
                GenericRunView::GetDirectory { command },
                generic_answers,
            );
            &&& generic.len() == 2
            &&& generic[0] == on_unix[0].of(generic[0].pid()).at(generic[0].time())
            &&& generic[1] == on_unix[1].of(generic[1].pid()).at(generic[1].time())
        }),
{
    law_unix_events_in_order(command, stopped, setting, unix_answers);
    law_generic_events_in_order(command, setting, generic_answers);
    let start = GenericRunView::GetDirectory { command };
    let before = generic_answers.drop_last();
    let waiting = run_after::<GenericExecutor>(start, before);
    assert(waiting.awaits(generic_answers.last().0));
    assert(events_after::<GenericExecutor>(start, generic_answers) == appended(
        events_after::<GenericExecutor>(start, before),
        waiting.event(generic_answers.last().0, generic_answers.last().1),
    ));
}

/// A run that is over asks for nothing, so it goes nowhere and reports nothing any more.
pub proof fn law_generic_over_is_over(run: GenericRunView, observed: GenericObserved)
    requires
        run is Done || run is Panic,
    ensures
        !run.awaits(observed),
{
}

} // verus!
