//! What the answers of the system lead to, whatever they hold.

use vstd::prelude::*;
use vstd::utf8::*;
use std::path::PathBuf;
use nix::sys::signal::Signal;
use nix::sys::wait::WaitPidFlag;
use crate::command::{
    call_view, env_text, has_null_byte, prepared, Command, ExecCall, ExecCallView,
};
use crate::error::{spawn_text, RunError};
use crate::event::{texts, Event, EventView, ExitCode, ProcessId, Timestamp};
use crate::executor::{all_awaited, appended, events_after, optional_view, run_after, Executor};
use crate::flags::wait_bits;
use crate::generic::{
    end_event, exit_code, GenericExecutor, GenericObserved, GenericRun, GenericRunView,
};
use crate::outside::{
    channel_of, fd_flag_bits, nix_error_text, path_debug_text, path_text, sent_events, signal_text,
    wait_flag_bits, wait_option_bits, WaitOption,
};
use crate::unix::{
    option_bits, Change, Forked, UnixExecutor, UnixObserved, UnixRun, UnixRunView, WaitOutcome,
};

verus! {

/// The texts are those of the strings, one for one.
pub open spec fn same_texts(shown: Seq<Seq<char>>, strings: Seq<String>) -> bool {
    &&& shown.len() == strings.len()
    &&& forall|i: int| 0 <= i < strings.len() ==> #[trigger] shown[i] == strings[i]@
}

/// A list of strings is shown in full: as many texts, each the text of its string.
pub proof fn law_texts_are_complete(strings: Seq<String>)
    ensures
        texts(strings).len() == strings.len(),
        forall|i: int| 0 <= i < strings.len() ==> #[trigger] texts(strings)[i] == strings[i]@,
{
}

/// A start that goes well, whatever the command, the identifiers and the descriptors are: the parent
/// asks for its directory, a pipe and a child, closes the end of the pipe that the child writes to,
/// reads up to 1024 bytes from the other end and closes that. If nothing was to be read, it reports
/// the child, with the command as it was given, and waits for this child.
pub proof fn law_unix_start(
    command: Command,
    stopped: bool,
    cwd: PathBuf,
    read_fd: i32,
    write_fd: i32,
    child: i32,
    buffer: Vec<u8>,
    parent: i32,
    time: Timestamp,
)
    ensures
        ({
            let asking = UnixRunView::GetDirectory { command, stopped };
            let piping = asking.next(UnixObserved::Directory(Ok(cwd)));
            let forking = piping.next(UnixObserved::Pipe(Ok((read_fd, write_fd))));
            let closing = forking.next(UnixObserved::Forked(Ok(Forked::Parent { child })));
            let reading = closing.next(UnixObserved::Closed);
            let read = reading.next(UnixObserved::Read { buffer, count: Ok(0) });
            let started = read.next(UnixObserved::Closed);
            let waiting = started.next(UnixObserved::Parent(parent));
            &&& piping is CreatePipe
            &&& forking is Fork
            &&& closing matches UnixRunView::CloseWriteEnd { write_fd: w, .. } && w == write_fd
            &&& reading matches UnixRunView::ReadPipe { read_fd: r, size, .. } && r == read_fd
                && size == 1024
            &&& read matches UnixRunView::CloseReadEnd { read_fd: r, .. } && r == read_fd
            &&& started matches UnixRunView::GetParent { command: c, cwd: d, child: p, .. } && c
                == command && d == cwd && p == child
            &&& waiting matches UnixRunView::Wait { pid, options: Some(bits) } && pid == child
                && bits == wait_option_bits(WaitOption::Continued) | wait_option_bits(
                WaitOption::Untraced,
            ) | (if stopped {
                wait_option_bits(WaitOption::Stopped)
            } else {
                0
            })
            &&& asking.event(UnixObserved::Directory(Ok(cwd)), time) is None
            &&& piping.event(UnixObserved::Pipe(Ok((read_fd, write_fd))), time) is None
            &&& forking.event(UnixObserved::Forked(Ok(Forked::Parent { child })), time) is None
            &&& closing.event(UnixObserved::Closed, time) is None
            &&& reading.event(UnixObserved::Read { buffer, count: Ok(0) }, time) is None
            &&& read.event(UnixObserved::Closed, time) is None
            &&& started.event(UnixObserved::Parent(parent), time) matches Some(
                EventView::Created { pid, ppid, cwd: d, program, args, when },
            ) && pid == child as ProcessId && ppid == parent as ProcessId && d == cwd && program
                == command.program && same_texts(args, command.args@) && when == time
        }),
{
}

/// Whether a command was started depends on what the parent reads from the pipe, and on nothing else:
/// the start has failed if and only if the read failed or gave at least one byte. It then ends the run
/// with that error, without an event. Else the run goes on with the same command, directory and child.
pub proof fn law_unix_start_fails_with_the_read(
    command: Command,
    stopped: bool,
    cwd: PathBuf,
    child: i32,
    read_fd: i32,
    size: usize,
    buffer: Vec<u8>,
    count: Result<usize, nix::Error>,
    time: Timestamp,
)
    ensures
        ({
            let reading = UnixRunView::ReadPipe { command, stopped, cwd, child, read_fd, size };
            let answer = UnixObserved::Read { buffer, count };
            let after = reading.next(answer).next(UnixObserved::Closed);
            &&& after is Done <==> count is Err || count->Ok_0 >= 1
            &&& count == Ok::<usize, nix::Error>(0) ==> after == (UnixRunView::GetParent {
                command,
                stopped,
                cwd,
                child,
            })
            &&& count matches Ok(n) ==> n >= 1 ==> after == (UnixRunView::Done {
                result: Err(RunError::Child { buffer, count: n }),
            })
            &&& count matches Err(e) ==> after == (UnixRunView::Done {
                result: Err(RunError::PipeRead(e)),
            })
            &&& reading.event(answer, time) is None
            &&& reading.next(answer).event(UnixObserved::Closed, time) is None
        }),
{
}

/// Without a directory, a pipe or a child there is no start: the run is over with the error of the
/// call that failed, and nothing is reported.
pub proof fn law_unix_start_needs_the_system(
    command: Command,
    stopped: bool,
    cwd: PathBuf,
    read_fd: i32,
    write_fd: i32,
    lost: std::io::Error,
    failure: nix::Error,
    time: Timestamp,
)
    ensures
        ({
            let asking = UnixRunView::GetDirectory { command, stopped };
            let piping = UnixRunView::CreatePipe { command, stopped, cwd };
            let forking = UnixRunView::Fork { command, stopped, cwd, read_fd, write_fd };
            &&& asking.next(UnixObserved::Directory(Err(lost))) == (UnixRunView::Done {
                result: Err(RunError::CurrentDirectory(lost)),
            })
            &&& piping.next(UnixObserved::Pipe(Err(failure))) == (UnixRunView::Done {
                result: Err(RunError::Pipe(failure)),
            })
            &&& forking.next(UnixObserved::Forked(Err(failure))) == (UnixRunView::Done {
                result: Err(RunError::Fork(failure)),
            })
            &&& asking.event(UnixObserved::Directory(Err(lost)), time) is None
            &&& piping.event(UnixObserved::Pipe(Err(failure)), time) is None
            &&& forking.event(UnixObserved::Forked(Err(failure)), time) is None
        }),
{
}

/// What the child does after the fork, whatever the command is: it closes the end of the pipe that
/// the parent reads from, reads the flags of its own end and sets the lowest of them and no other. It
/// executes the call of the command on this end, if there is one.
pub proof fn law_unix_child_executes(
    command: Command,
    stopped: bool,
    cwd: PathBuf,
    read_fd: i32,
    write_fd: i32,
    current: i32,
)
    ensures
        ({
            let forking = UnixRunView::Fork { command, stopped, cwd, read_fd, write_fd };
            let closing = forking.next(UnixObserved::Forked(Ok(Forked::Child)));
            let asking = closing.next(UnixObserved::Closed);
            let setting = asking.next(UnixObserved::Flags(Ok(current)));
            let executing = setting.next(UnixObserved::FlagsSet(Ok(())));
            &&& closing matches UnixRunView::CloseReadEndInChild { read_fd: r, .. } && r == read_fd
            &&& asking matches UnixRunView::GetFlags { write_fd: w, .. } && w == write_fd
            &&& setting matches UnixRunView::SetFlags { write_fd: w, flags, .. } && w == write_fd
                && flags == 1
            &&& executing matches UnixRunView::Execute { call, write_fd: w } ==> command.call()
                == Ok::<_, RunError>(call) && w == write_fd
            &&& executing is Execute <==> command.call() is Ok
            &&& command.call() matches Err(e) ==> executing matches UnixRunView::WriteMessage {
                write_fd: w,
                message,
            } && w == write_fd && message == encode_utf8(e.text())
        }),
{
}

/// A child that could not execute its program writes the message of the system to its end of the
/// pipe and exits with status 1. One that comes back all the same is over with an error. If the flags
/// could not be read or set, it panics with the cause.
pub proof fn law_unix_child_fails(
    command: Command,
    call: ExecCallView,
    write_fd: i32,
    flags: i32,
    cause: nix::Error,
)
    ensures
        ({
            let executing = UnixRunView::Execute { call, write_fd };
            let telling = executing.next(UnixObserved::Executed(Err(cause)));
            &&& telling matches UnixRunView::WriteMessage { write_fd: w, message } && w == write_fd
                && message == encode_utf8(nix_error_text(cause))
            &&& telling.next(UnixObserved::Written) == (UnixRunView::Exit { status: 1 })
            &&& executing.next(UnixObserved::Executed(Ok(()))) == (UnixRunView::Done {
                result: Err(RunError::Execved),
            })
            &&& (UnixRunView::GetFlags { command, write_fd }).next(UnixObserved::Flags(Err(cause)))
                == (UnixRunView::Panic { cause })
            &&& (UnixRunView::SetFlags { command, write_fd, flags }).next(
                UnixObserved::FlagsSet(Err(cause)),
            ) == (UnixRunView::Panic { cause })
        }),
{
}

/// For every code, a process that exits with it ends the run with exactly this code, and the event
/// has it too. So two processes have the same result only if they exited with the same code.
pub proof fn law_unix_exit_code_is_kept(
    awaited: i32,
    options: Option<i32>,
    pid: i32,
    code: ExitCode,
    other: ExitCode,
    time: Timestamp,
)
    ensures
        ({
            let waiting = UnixRunView::Wait { pid: awaited, options };
            let answer = UnixObserved::Waited(Ok(WaitOutcome::Exited { pid, code }));
            let another = UnixObserved::Waited(Ok(WaitOutcome::Exited { pid, code: other }));
            let change = Change::Exited { pid, code };
            let event = EventView::TerminatedNormally { pid: pid as ProcessId, code, when: time };
            &&& waiting.next(answer) == (UnixRunView::Done { result: Ok(code) })
            &&& waiting.event(answer, time) == Some(event)
            &&& change.next(awaited, options) == (UnixRunView::Done { result: Ok(code) })
            &&& change.event(time) == Some(event)
            &&& waiting.next(answer) == waiting.next(another) <==> code == other
        }),
{
}

/// A process that was killed, by whatever signal, ends the run with 127, and the event has the name
/// of the signal.
pub proof fn law_unix_kill_is_named(
    awaited: i32,
    options: Option<i32>,
    pid: i32,
    signal: Signal,
    core_dumped: bool,
    name: String,
    time: Timestamp,
)
    ensures
        ({
            let waiting = UnixRunView::Wait { pid: awaited, options };
            let answer = UnixObserved::Waited(
                Ok(WaitOutcome::Signaled { pid, signal, core_dumped }),
            );
            let change = Change::Signaled { pid, signal: name };
            &&& waiting.next(answer) == (UnixRunView::Done { result: Ok(127) })
            &&& waiting.event(answer, time) == Some(
                EventView::TerminatedAbnormally {
                    pid: pid as ProcessId,
                    signal: signal_text(signal),
                    when: time,
                },
            )
            &&& change.next(awaited, options) == (UnixRunView::Done { result: Ok(127) })
            &&& change.event(time) == Some(
                EventView::TerminatedAbnormally {
                    pid: pid as ProcessId,
                    signal: name@,
                    when: time,
                },
            )
        }),
{
}

/// A process that was suspended or resumed is waited for again, with the same options, and the event
/// says what happened to it.
pub proof fn law_unix_suspended_is_waited_for(
    awaited: i32,
    options: Option<i32>,
    pid: i32,
    signal: Signal,
    name: String,
    time: Timestamp,
)
    ensures
        ({
            let waiting = UnixRunView::Wait { pid: awaited, options };
            let again = UnixRunView::Wait { pid, options };
            let stop = UnixObserved::Waited(Ok(WaitOutcome::Stopped { pid, signal }));
            let resumption = UnixObserved::Waited(Ok(WaitOutcome::Continued { pid }));
            let resumed = EventView::Continued { pid: pid as ProcessId, when: time };
            &&& waiting.next(stop) == again
            &&& waiting.next(resumption) == again
            &&& waiting.event(stop, time) == Some(
                EventView::Stopped {
                    pid: pid as ProcessId,
                    signal: signal_text(signal),
                    when: time,
                },
            )
            &&& waiting.event(resumption, time) == Some(resumed)
            &&& (Change::Stopped { pid, signal: name }).next(awaited, options) == again
            &&& (Change::Continued { pid }).next(awaited, options) == again
            &&& (Change::Stopped { pid, signal: name }).event(time) == Some(
                EventView::Stopped { pid: pid as ProcessId, signal: name@, when: time },
            )
            &&& (Change::Continued { pid }).event(time) == Some(resumed)
        }),
{
}

/// An answer without a change leaves the run as it was. If the child cannot be waited for, the run is
/// over with the error. Neither is reported.
pub proof fn law_unix_wait_without_a_change(
    awaited: i32,
    options: Option<i32>,
    failure: nix::Error,
    time: Timestamp,
)
    ensures
        ({
            let waiting = UnixRunView::Wait { pid: awaited, options };
            let nothing = UnixObserved::Waited(Ok(WaitOutcome::Other));
            let failed = UnixObserved::Waited(Err(failure));
            &&& waiting.next(nothing) == waiting
            &&& waiting.event(nothing, time) is None
            &&& Change::Other.next(awaited, options) == waiting
            &&& Change::Other.event(time) is None
            &&& waiting.next(failed) == (UnixRunView::Done { result: Err(RunError::Wait(failure)) })
            &&& waiting.event(failed, time) is None
        }),
{
}

/// A run takes the answers to its question and no others, whatever they hold. One that is over takes
/// none.
pub proof fn law_unix_takes_every_answer(run: UnixRunView, observed: UnixObserved)
    ensures
        run.awaits(observed) <==> match observed {
            UnixObserved::Directory(_) => run is GetDirectory,
            UnixObserved::Pipe(_) => run is CreatePipe,
            UnixObserved::Forked(_) => run is Fork,
            UnixObserved::Closed => run is CloseWriteEnd || run is CloseReadEnd
                || run is CloseReadEndInChild,
            UnixObserved::Read { .. } => run is ReadPipe,
            UnixObserved::Parent(_) => run is GetParent,
            UnixObserved::Waited(_) => run is Wait,
            UnixObserved::Flags(_) => run is GetFlags,
            UnixObserved::FlagsSet(_) => run is SetFlags,
            UnixObserved::Executed(_) => run is Execute,
            UnixObserved::Written => run is WriteMessage,
        },
{
}

/// Only the parent's identifier and a change of the child are reported.
pub proof fn law_unix_reports_start_and_changes(
    run: UnixRunView,
    observed: UnixObserved,
    time: Timestamp,
)
    requires
        run.awaits(observed),
    ensures
        run.reports(observed) <==> match observed {
            UnixObserved::Parent(_) => true,
            UnixObserved::Waited(Ok(outcome)) => !(outcome is Other),
            _ => false,
        },
        run.reports(observed) <==> run.event(observed, time) is Some,
{
}

/// What a run says is what it holds.
pub proof fn law_unix_run_is_shown(run: UnixRun)
    ensures
        match run {
            UnixRun::GetDirectory { command, stopped } => run@ == (UnixRunView::GetDirectory {
                command,
                stopped,
            }),
            UnixRun::CreatePipe { command, stopped, cwd } => run@ == (UnixRunView::CreatePipe {
                command,
                stopped,
                cwd,
            }),
            UnixRun::Fork { command, stopped, cwd, read_fd, write_fd } => run@ == (
            UnixRunView::Fork { command, stopped, cwd, read_fd, write_fd }),
            UnixRun::CloseWriteEnd { command, stopped, cwd, child, read_fd, write_fd } => run@ == (
            UnixRunView::CloseWriteEnd { command, stopped, cwd, child, read_fd, write_fd }),
            UnixRun::ReadPipe { command, stopped, cwd, child, read_fd, size } => run@ == (
            UnixRunView::ReadPipe { command, stopped, cwd, child, read_fd, size }),
            UnixRun::CloseReadEnd { command, stopped, cwd, read_fd, spawned } => run@ == (
            UnixRunView::CloseReadEnd { command, stopped, cwd, read_fd, spawned }),
            UnixRun::GetParent { command, stopped, cwd, child } => run@ == (
            UnixRunView::GetParent { command, stopped, cwd, child }),
            UnixRun::Wait { pid, options } => {
                &&& run@ is Wait
                &&& run@->Wait_pid == pid
                &&& options is None ==> run@->options is None
                &&& options matches Some(f) ==> run@->options == Some(wait_flag_bits(f))
            },
            UnixRun::CloseReadEndInChild { command, read_fd, write_fd } => run@ == (
            UnixRunView::CloseReadEndInChild { command, read_fd, write_fd }),
            UnixRun::GetFlags { command, write_fd } => run@ == (UnixRunView::GetFlags {
                command,
                write_fd,
            }),
            UnixRun::SetFlags { command, write_fd, flags } => run@ == (UnixRunView::SetFlags {
                command,
                write_fd,
                flags: fd_flag_bits(flags),
            }),
            UnixRun::Execute { call, write_fd } => {
                &&& run@ is Execute
                &&& run@->Execute_write_fd == write_fd
                &&& run@->call.program == call.program@
                &&& same_texts(run@->call.args, call.args@)
                &&& same_texts(run@->call.envs, call.envs@)
            },
            UnixRun::WriteMessage { write_fd, message } => run@ == (UnixRunView::WriteMessage {
                write_fd,
                message: message@,
            }),
            UnixRun::Exit { status } => run@ == (UnixRunView::Exit { status }),
            UnixRun::Panic { cause } => run@ == (UnixRunView::Panic { cause }),
            UnixRun::Done { result } => run@ == (UnixRunView::Done { result }),
        },
{
}

/// What an event says is what it holds, and the process that it is about is the one that it names.
pub proof fn law_event_is_shown(event: Event)
    ensures
        match event {
            Event::Created { pid, ppid, cwd, program, args, when } => {
                &&& event@ matches EventView::Created {
                    pid: p,
                    ppid: pp,
                    cwd: d,
                    program: f,
                    args: shown,
                    when: w,
                }
                &&& p == pid && pp == ppid && d == cwd && f == program && w == when
                &&& same_texts(shown, args@)
                &&& event@.pid() == pid
            },
            Event::TerminatedNormally { pid, code, when } => {
                &&& event@ == (EventView::TerminatedNormally { pid, code, when })
                &&& event@.pid() == pid
            },
            Event::TerminatedAbnormally { pid, signal, when } => {
                &&& event@ == (EventView::TerminatedAbnormally { pid, signal: signal@, when })
                &&& event@.pid() == pid
            },
            Event::Stopped { pid, signal, when } => {
                &&& event@ == (EventView::Stopped { pid, signal: signal@, when })
                &&& event@.pid() == pid
            },
            Event::Continued { pid, when } => {
                &&& event@ == (EventView::Continued { pid, when })
                &&& event@.pid() == pid
            },
        },
{
}

/// An event is shown if there is one, and reported after all the earlier ones.
pub proof fn law_event_is_reported_last(events: Seq<EventView>, event: Event)
    ensures
        optional_view(Some(event)) == Some(event@),
        optional_view(None) is None,
        appended(events, Some(event@)).len() == events.len() + 1,
        appended(events, Some(event@)).last() == event@,
        appended(events, Some(event@)).drop_last() == events,
        appended(events, None) == events,
{
}

/// What can be passed to the system, whatever the texts are: the call is refused if and only if a text
/// has a null byte or the path has no text. A path without a text is named only where no argument and
/// no variable has a null byte. Else the call has the program, as many arguments as were given, each
/// with its text, and as many variables, each as key, equals sign and value.
pub proof fn law_call_is_complete(
    program: Option<Seq<char>>,
    args: Seq<String>,
    envs: Seq<(String, String)>,
)
    ensures
        ({
            let call = prepared(program, args, envs);
            let bad_arg = exists|i: int|
                0 <= i < args.len() && encode_utf8(#[trigger] args[i]@).contains(0u8);
            let bad_env = exists|i: int|
                0 <= i < envs.len() && encode_utf8(
                    (#[trigger] envs[i]).0@ + seq!['='] + envs[i].1@,
                ).contains(0u8);
            let bad_program = program is Some && encode_utf8(program->0).contains(0u8);
            &&& call is Err <==> bad_arg || bad_env || program is None || bad_program
            &&& call matches Err(e) ==> e == if program is None && !bad_arg && !bad_env {
                RunError::PathText
            } else {
                RunError::NullByte
            }
            &&& call matches Ok(c) ==> {
                &&& program == Some(c.program)
                &&& same_texts(c.args, args)
                &&& c.envs.len() == envs.len()
                &&& forall|i: int|
                    0 <= i < envs.len() ==> #[trigger] c.envs[i] == envs[i].0@ + seq!['=']
                        + envs[i].1@
            }
        }),
{
    reveal_strlit("=");
    assert("="@ =~= seq!['=']);
    assert forall|i: int| 0 <= i < envs.len() implies env_text(#[trigger] envs[i]) == envs[i].0@
        + seq!['='] + envs[i].1@ by {}
    assert forall|i: int| 0 <= i < args.len() implies has_null_byte(#[trigger] args[i]@)
        == encode_utf8(args[i]@).contains(0u8) by {}
}

/// The call of a command is made of its program, its arguments and its environment.
pub proof fn law_call_of_command(command: Command)
    ensures
        command.call() == prepared(path_text(command.program), command.args@, command.envs@),
{
}

/// What a call says is what it holds; a refusal is shown as it is.
pub proof fn law_call_is_shown(call: ExecCall, refusal: RunError)
    ensures
        call@.program == call.program@,
        same_texts(call@.args, call.args@),
        same_texts(call@.envs, call.envs@),
        call_view(Ok(call)) == Ok::<_, RunError>(call@),
        call_view(Err(refusal)) == Err::<ExecCallView, _>(refusal),
{
}

/// The options to wait with are those for resumed and for stopped children, and the separate one for
/// stops where it is wanted.
pub proof fn law_wait_options(stopped: bool, flags: WaitPidFlag)
    ensures
        wait_bits(true) == wait_option_bits(WaitOption::Continued) | wait_option_bits(
            WaitOption::Untraced,
        ) | wait_option_bits(WaitOption::Stopped),
        wait_bits(false) == wait_option_bits(WaitOption::Continued) | wait_option_bits(
            WaitOption::Untraced,
        ),
        option_bits(Some(flags)) == Some(wait_flag_bits(flags)),
        option_bits(None) is None,
{
    let c = wait_option_bits(WaitOption::Continued);
    let u = wait_option_bits(WaitOption::Untraced);
    assert(c | u | 0i32 == c | u) by (bit_vector);
}

/// The message of each error, whatever its cause is.
pub proof fn law_error_messages(lost: std::io::Error, failure: nix::Error, program: PathBuf)
    ensures
        (RunError::CurrentDirectory(lost)).text() == "Unable to get current working directory"@,
        (RunError::Pipe(failure)).text() == "Unable to create pipe."@,
        (RunError::Fork(failure)).text() == "Fork process failed."@,
        (RunError::PipeRead(failure)).text() == "Read from pipe failed."@,
        RunError::NullByte.text() == "String contains null byte."@,
        RunError::PathText.text() == "Path can't converted into string."@,
        (RunError::Execve(failure)).text() == nix_error_text(failure),
        RunError::Execved.text() == "Never gonna happen"@,
        (RunError::Wait(failure)).text() == "Process creation failed."@,
        (RunError::WaitSpawned(lost)).text() == "Waiting for process failed."@,
        (RunError::Spawn { program, cause: lost }).text() == "unable to execute process: "@
            + path_debug_text(program),
{
}

/// A program that could not be started is named after the words for that.
pub proof fn law_spawn_message_names_program(program: Seq<char>)
    ensures
        spawn_text(program) == "unable to execute process: "@ + program,
{
}

/// The message of a child, whatever it wrote: in UTF-8 it is exactly the bytes that were read. Bytes
/// that are no text have a message of their own.
pub proof fn law_child_message_is_what_was_read(buffer: Vec<u8>, count: usize)
    ensures
        ({
            let text = (RunError::Child { buffer, count }).text();
            let bytes = if count <= buffer@.len() {
                buffer@.take(count as int)
            } else {
                buffer@
            };
            &&& valid_utf8(bytes) ==> encode_utf8(text) == bytes
            &&& !valid_utf8(bytes) ==> text == "Unknown reason."@
        }),
{
    let bytes = if count <= buffer@.len() {
        buffer@.take(count as int)
    } else {
        buffer@
    };
    if valid_utf8(bytes) {
        decode_utf8_encode_utf8(bytes);
    }
}

/// The executor of Unix does with a run what the run says, and reports through its sender.
pub proof fn law_unix_executor_follows_run(
    executor: UnixExecutor,
    run: UnixRun,
    state: UnixRunView,
    observed: UnixObserved,
    time: Timestamp,
)
    ensures
        executor.reported() == sent_events(executor.reporter()),
        executor.channel() == channel_of(executor.reporter()),
        UnixExecutor::state(run) == run@,
        UnixExecutor::awaits(state, observed) == state.awaits(observed),
        UnixExecutor::next(state, observed) == state.next(observed),
        UnixExecutor::reports(state, observed) == state.reports(observed),
        UnixExecutor::event(state, observed, time) == state.event(observed, time),
{
}

/// The executor for any platform does with a run what the run says, and reports through its sender.
pub proof fn law_generic_executor_follows_run(
    executor: GenericExecutor,
    run: GenericRun,
    state: GenericRunView,
    observed: GenericObserved,
    time: Timestamp,
)
    ensures
        executor.reported() == sent_events(executor.reporter()),
        executor.channel() == channel_of(executor.reporter()),
        GenericExecutor::state(run) == run@,
        GenericExecutor::awaits(state, observed) == state.awaits(observed),
        GenericExecutor::next(state, observed) == state.next(observed),
        GenericExecutor::reports(state, observed) == state.reports(observed),
        GenericExecutor::event(state, observed, time) == state.event(observed, time),
{
}

/// What a run says is what it holds.
pub proof fn law_generic_run_is_shown(run: GenericRun)
    ensures
        match run {
            GenericRun::GetDirectory { command } => run@ == (GenericRunView::GetDirectory {
                command,
            }),
            GenericRun::Spawn { command, cwd, arguments } => {
                &&& run@ matches GenericRunView::Spawn { command: c, cwd: d, arguments: shown }
                &&& c == command && d == cwd
                &&& same_texts(shown, arguments@)
            },
            GenericRun::GetParent { command, cwd, child } => run@ == (GenericRunView::GetParent {
                command,
                cwd,
                child,
            }),
            GenericRun::Wait { pid } => run@ == (GenericRunView::Wait { pid }),
            GenericRun::Panic => run@ is Panic,
            GenericRun::Done { result } => run@ == (GenericRunView::Done { result }),
        },
{
}

/// A whole run of a command, whatever the command, the identifiers and the end of the process are: the
/// program is started with every argument but the first, both events are about the process that the
/// system started, and the result is the code that it exited with, or 127 where it has none.
pub proof fn law_generic_run(
    command: Command,
    cwd: PathBuf,
    child: ProcessId,
    parent: ProcessId,
    ended: Option<ExitCode>,
    time: Timestamp,
)
    requires
        command.args@.len() >= 1,
    ensures
        ({
            let asking = GenericRunView::GetDirectory { command };
            let starting = asking.next(GenericObserved::Directory(Ok(cwd)));
            let started = starting.next(GenericObserved::Spawned(Ok(child)));
            let waiting = started.next(GenericObserved::Parent(parent));
            let over = waiting.next(GenericObserved::Waited(Ok(ended)));
            &&& starting matches GenericRunView::Spawn { command: c, cwd: d, arguments } && c
                == command && d == cwd && arguments.len() == command.args@.len() - 1 && (forall|
                i: int,
            |
                0 <= i < arguments.len() ==> #[trigger] arguments[i] == command.args@[i + 1]@)
            &&& started is GetParent
            &&& waiting == (GenericRunView::Wait { pid: child })
            &&& over matches GenericRunView::Done { result: Ok(code) } && match ended {
                Some(c) => code == c,
                None => code == 127,
            }
            &&& asking.event(GenericObserved::Directory(Ok(cwd)), time) is None
            &&& starting.event(GenericObserved::Spawned(Ok(child)), time) is None
            &&& started.event(GenericObserved::Parent(parent), time) matches Some(
                EventView::Created { pid, ppid, cwd: d, program, args, when },
            ) && pid == child && ppid == parent && d == cwd && program == command.program
                && same_texts(args, command.args@) && when == time
            &&& waiting.event(GenericObserved::Waited(Ok(ended)), time) == Some(
                match ended {
                    Some(code) => EventView::TerminatedNormally { pid: child, code, when: time },
                    None => EventView::TerminatedAbnormally {
                        pid: child,
                        signal: "unknown"@,
                        when: time,
                    },
                },
            )
        }),
{
}

/// Without a directory or a process there is no run: it is over with the error of the call that
/// failed, and nothing is reported. If the end cannot be waited for, the run is over with that error
/// and without another event. A command without any argument comes to a panic where it would be
/// started.
pub proof fn law_generic_run_needs_the_system(
    command: Command,
    cwd: PathBuf,
    arguments: Seq<Seq<char>>,
    pid: ProcessId,
    failure: std::io::Error,
    time: Timestamp,
)
    ensures
        ({
            let asking = GenericRunView::GetDirectory { command };
            let starting = GenericRunView::Spawn { command, cwd, arguments };
            let waiting = GenericRunView::Wait { pid };
            &&& asking.next(GenericObserved::Directory(Err(failure))) == (GenericRunView::Done {
                result: Err(RunError::CurrentDirectory(failure)),
            })
            &&& starting.next(GenericObserved::Spawned(Err(failure))) == (GenericRunView::Done {
                result: Err(RunError::Spawn { program: command.program, cause: failure }),
            })
            &&& waiting.next(GenericObserved::Waited(Err(failure))) == (GenericRunView::Done {
                result: Err(RunError::WaitSpawned(failure)),
            })
            &&& asking.next(GenericObserved::Directory(Ok(cwd))) is Panic <==> command.args@.len()
                == 0
            &&& asking.event(GenericObserved::Directory(Err(failure)), time) is None
            &&& starting.event(GenericObserved::Spawned(Err(failure)), time) is None
            &&& waiting.event(GenericObserved::Waited(Err(failure)), time) is None
        }),
{
}

/// Once the system has said which process it started, every event of the run is about this process,
/// and the run waits for it, whatever else is answered.
pub proof fn law_generic_events_about_started(
    command: Command,
    cwd: PathBuf,
    arguments: Seq<Seq<char>>,
    child: ProcessId,
    answers: Seq<(GenericObserved, Timestamp)>,
)
    requires
        all_awaited::<GenericExecutor>(
            (GenericRunView::Spawn { command, cwd, arguments }).next(
                GenericObserved::Spawned(Ok(child)),
            ),
            answers,
        ),
    ensures
        ({
            let started = (GenericRunView::Spawn { command, cwd, arguments }).next(
                GenericObserved::Spawned(Ok(child)),
            );
            let events = events_after::<GenericExecutor>(started, answers);
            &&& forall|i: int|
                0 <= i < events.len() ==> match #[trigger] events[i] {
                    EventView::Created { pid, .. } => pid == child,
                    EventView::TerminatedNormally { pid, .. } => pid == child,
                    EventView::TerminatedAbnormally { pid, .. } => pid == child,
                    EventView::Stopped { pid, .. } => pid == child,
                    EventView::Continued { pid, .. } => pid == child,
                }
            &&& match run_after::<GenericExecutor>(started, answers) {
                GenericRunView::GetParent { child: c, .. } => c == child,
                GenericRunView::Wait { pid } => pid == child,
                GenericRunView::Done { .. } => true,
                _ => false,
            }
        }),
    decreases answers.len(),
{
    if answers.len() > 0 {
        let started = (GenericRunView::Spawn { command, cwd, arguments }).next(
            GenericObserved::Spawned(Ok(child)),
        );
        let before = answers.drop_last();
        law_generic_events_about_started(command, cwd, arguments, child, before);
        let run = run_after::<GenericExecutor>(started, before);
        assert(run.awaits(answers.last().0));
        assert(events_after::<GenericExecutor>(started, answers) == appended(
            events_after::<GenericExecutor>(started, before),
            run.event(answers.last().0, answers.last().1),
        ));
    }
}

/// How a process ended is told by its code, if it has one: the result is this code, or 127, and the
/// event has the code, or the signal "unknown".
pub proof fn law_generic_end(pid: ProcessId, code: ExitCode, time: Timestamp)
    ensures
        exit_code(Some(code)) == code,
        exit_code(None) == 127,
        end_event(pid, Some(code), time) == (EventView::TerminatedNormally {
            pid,
            code,
            when: time,
        }),
        end_event(pid, None, time) == (EventView::TerminatedAbnormally {
            pid,
            signal: "unknown"@,
            when: time,
        }),
{
}

/// A run takes the answers to its question and no others, whatever they hold. One that is over takes
/// none. Only the parent's identifier and an end are reported.
pub proof fn law_generic_takes_every_answer(
    run: GenericRunView,
    observed: GenericObserved,
    time: Timestamp,
)
    ensures
        run.awaits(observed) <==> match observed {
            GenericObserved::Directory(_) => run is GetDirectory,
            GenericObserved::Spawned(_) => run is Spawn,
            GenericObserved::Parent(_) => run is GetParent,
            GenericObserved::Waited(_) => run is Wait,
        },
        run.awaits(observed) ==> (run.reports(observed) <==> match observed {
            GenericObserved::Parent(_) => true,
            GenericObserved::Waited(ended) => ended is Ok,
            _ => false,
        }),
        run.reports(observed) <==> run.event(observed, time) is Some,
{
}

/// Of an executor that takes a run through the answers, one call of `run` after the other, every event
/// has the time that was read off the clock for it: the new events and the new readings are as many,
/// and go together one by one. `reported[i]` and `readings[i]` are what it has reported and read after
/// the first `i` calls.
pub proof fn law_events_have_times_of_clock<E: Executor>(
    observed: Seq<E::Observed>,
    states: Seq<E::State>,
    reported: Seq<Seq<EventView>>,
    readings: Seq<Seq<Timestamp>>,
)
    requires
        states.len() == observed.len() + 1,
        reported.len() == observed.len() + 1,
        readings.len() == observed.len() + 1,
        forall|i: int|
            0 <= i < observed.len() ==> if E::reports(states[i], #[trigger] observed[i]) {
                let time = readings[i + 1].last();
                &&& readings[i + 1] == readings[i].push(time)
                &&& reported[i + 1] == reported[i].push(
                    E::event(states[i], observed[i], time)->0,
                )
            } else {
                readings[i + 1] == readings[i] && reported[i + 1] == reported[i]
            },
    ensures
        ({
            let events = reported.last();
            let times = readings.last();
            let told = reported[0].len() as int;
            let read = readings[0].len() as int;
            &&& events.len() - told == times.len() - read
            &&& told <= events.len()
            &&& forall|k: int|
                told <= k < events.len() ==> match #[trigger] events[k] {
                    EventView::Created { when, .. } => when == times[k - told + read],
                    EventView::TerminatedNormally { when, .. } => when == times[k - told + read],
                    EventView::TerminatedAbnormally { when, .. } => when == times[k - told + read],
                    EventView::Stopped { when, .. } => when == times[k - told + read],
                    EventView::Continued { when, .. } => when == times[k - told + read],
                }
        }),
    decreases observed.len(),
{
    if observed.len() > 0 {
        let n = observed.len() - 1;
        assert forall|i: int| 0 <= i < observed.drop_last().len() implies if E::reports(
            states.drop_last()[i],
            #[trigger] observed.drop_last()[i],
        ) {
            let time = readings.drop_last()[i + 1].last();
            &&& readings.drop_last()[i + 1] == readings.drop_last()[i].push(time)
            &&& reported.drop_last()[i + 1] == reported.drop_last()[i].push(
                E::event(states.drop_last()[i], observed.drop_last()[i], time)->0,
            )
        } else {
            readings.drop_last()[i + 1] == readings.drop_last()[i] && reported.drop_last()[i + 1]
                == reported.drop_last()[i]
        } by {
            assert(observed.drop_last()[i] == observed[i]);
        }
        law_events_have_times_of_clock::<E>(
            observed.drop_last(),
            states.drop_last(),
            reported.drop_last(),
            readings.drop_last(),
        );
        assert(reported.drop_last().last() == reported[n]);
        assert(readings.drop_last().last() == readings[n]);
        assert(observed[n] == observed.last());
        E::law_event_has_its_time(states[n], observed[n], readings[n + 1].last());
    }
}

} // verus!
