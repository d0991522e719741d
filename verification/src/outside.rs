//! The items of std, chrono and nix that the library relies on, with what is taken for granted of
//! them.

use vstd::prelude::*;
use vstd::utf8::*;
use std::path::PathBuf;
use std::sync::mpsc::Sender;
use nix::fcntl::FdFlag;
use nix::sys::signal::Signal;
use nix::sys::wait::WaitPidFlag;
use crate::event::{Event, EventView, Timestamp};

verus! {

/// The sending half of a channel of std.
#[verifier::external_type_specification]
#[verifier::external_body]
#[verifier::reject_recursive_types(T)]
pub struct ExSender<T>(std::sync::mpsc::Sender<T>);

/// An owned path of std.
#[verifier::external_type_specification]
#[verifier::external_body]
pub struct ExPathBuf(std::path::PathBuf);

/// The error of std's input and output operations.
#[verifier::external_type_specification]
#[verifier::external_body]
pub struct ExIoError(std::io::Error);

/// The error of std's decoding of UTF-8.
#[verifier::external_type_specification]
#[verifier::external_body]
pub struct ExUtf8Error(std::str::Utf8Error);

/// A signal of the operating system, as nix has it.
#[verifier::external_type_specification]
#[verifier::external_body]
pub struct ExSignal(nix::sys::signal::Signal);

/// The error of nix's system calls.
#[verifier::external_type_specification]
#[verifier::external_body]
pub struct ExNixError(nix::Error);

/// The options of nix's `waitpid`.
#[verifier::external_type_specification]
#[verifier::external_body]
pub struct ExWaitPidFlag(nix::sys::wait::WaitPidFlag);

/// The flags of a file descriptor, as nix has them.
#[verifier::external_type_specification]
#[verifier::external_body]
pub struct ExFdFlag(nix::fcntl::FdFlag);

/// The clock of the system, with what was read off it.
pub struct Clock {
    readings: Ghost<Seq<Timestamp>>,
}

impl Clock {
    /// The times that were read off the clock, the earliest reading first.
    pub closed spec fn readings(&self) -> Seq<Timestamp> {
        self.readings@
    }

    /// The clock, before its first reading.
    pub fn new() -> (clock: Clock)
        ensures
            clock.readings() == Seq::<Timestamp>::empty(),
    {
        Clock { readings: Ghost(Seq::empty()) }
    }
}

/// `chrono::Utc::now`, as the whole seconds since the Unix epoch and the nanoseconds after them: one
/// more reading of the clock. What the clock shows is left open; the nanoseconds stay below two
/// seconds, since chrono counts a leap second into them. The call panics if the clock stands before
/// the epoch.
#[verifier::external_body]
pub(crate) fn now(clock: &mut Clock) -> (time: Timestamp)
    ensures
        final(clock).readings() == old(clock).readings().push(time),
        time.nanoseconds < 2_000_000_000,
{
    let utc = chrono::Utc::now();
    Timestamp { seconds: utc.timestamp(), nanoseconds: utc.timestamp_subsec_nanos() }
}

/// The events that `send` was given on this sender, the oldest first.
pub uninterp spec fn sent_events(sender: Sender<Event>) -> Seq<EventView>;

/// The channel that the sender sends to; each channel has a number of its own.
pub uninterp spec fn channel_of(sender: Sender<Event>) -> int;

/// `std::sync::mpsc::Sender::send`: hands the event over to the channel of the sender, which stays the
/// same. An event that could not be sent, because the receiving half is gone, comes back unchanged.
#[verifier::external_body]
pub(crate) fn send(sender: &mut Sender<Event>, event: Event) -> (sent: Result<(), Event>)
    ensures
        sent_events(*final(sender)) == sent_events(*old(sender)).push(event@),
        channel_of(*final(sender)) == channel_of(*old(sender)),
        sent matches Err(returned) ==> returned == event,
{
    match sender.send(event) {
        Ok(()) => Ok(()),
        Err(error) => Err(error.0),
    }
}

/// `std::str::from_utf8`: the text of the bytes where they are UTF-8, an error elsewhere.
pub assume_specification [std::str::from_utf8](bytes: &[u8]) -> (text: Result<
    &str,
    std::str::Utf8Error,
>)
    ensures
        text is Ok <==> valid_utf8(bytes@),
        text matches Ok(s) ==> s@ == decode_utf8(bytes@),
;

/// The text of a path, if it is Unicode.
pub uninterp spec fn path_text(path: PathBuf) -> Option<Seq<char>>;

/// `std::path::Path::to_str`: the path as a text, where it is valid Unicode.
#[verifier::external_body]
pub(crate) fn path_to_str(path: &PathBuf) -> (text: Option<&str>)
    ensures
        text is Some <==> path_text(*path) is Some,
        text matches Some(s) ==> Some(s@) == path_text(*path),
{
    path.to_str()
}

/// The text that `{:?}` prints of a path.
pub uninterp spec fn path_debug_text(path: PathBuf) -> Seq<char>;

/// The `Debug` formatting of `std::path::PathBuf`.
#[verifier::external_body]
pub(crate) fn path_debug(path: &PathBuf) -> (text: String)
    ensures
        text@ == path_debug_text(*path),
{
    format!("{:?}", path)
}

/// The name that nix prints of a signal, such as `SIGKILL`.
pub uninterp spec fn signal_text(signal: Signal) -> Seq<char>;

/// The `Display` formatting of `nix::sys::signal::Signal`.
#[verifier::external_body]
pub(crate) fn signal_name(signal: Signal) -> (name: String)
    ensures
        name@ == signal_text(signal),
{
    format!("{}", signal)
}

/// The text that nix prints of an error, such as `ENOENT: No such file or directory`.
pub uninterp spec fn nix_error_text(error: nix::Error) -> Seq<char>;

/// The `Display` formatting of `nix::Error`.
#[verifier::external_body]
pub(crate) fn nix_error_message(error: &nix::Error) -> (text: String)
    ensures
        text@ == nix_error_text(*error),
{
    format!("{}", error)
}

/// The bits of a set of file descriptor flags.
pub uninterp spec fn fd_flag_bits(flags: FdFlag) -> i32;

/// `nix::fcntl::FdFlag::FD_CLOEXEC`, the only flag of its kind: the lowest bit.
#[verifier::external_body]
pub(crate) fn close_on_exec() -> (flags: FdFlag)
    ensures
        fd_flag_bits(flags) == 1,
{
    FdFlag::FD_CLOEXEC
}

/// `nix::fcntl::FdFlag::from_bits`: the flags with these bits, if each of the bits is a flag. The
/// lowest bit is the only one that is.
pub assume_specification [nix::fcntl::FdFlag::from_bits](bits: i32) -> (flags: Option<
    nix::fcntl::FdFlag,
>)
    ensures
        flags is Some <==> bits == 0 || bits == 1,
        flags matches Some(f) ==> fd_flag_bits(f) == bits,
;

/// `nix::fcntl::FdFlag::insert`: adds the bits of the other flags.
pub assume_specification [nix::fcntl::FdFlag::insert](
    flags: &mut nix::fcntl::FdFlag,
    other: nix::fcntl::FdFlag,
)
    ensures
        fd_flag_bits(*final(flags)) == fd_flag_bits(*old(flags)) | fd_flag_bits(other),
;

/// The options of `waitpid` that matter here.
#[derive(Clone, Copy, Debug, PartialEq, Eq, Structural)]
pub enum WaitOption {
    /// Return at once, even if nothing happened.
    NoHang,
    /// Leave the child in its state, to be waited for again.
    NoWait,
    /// Return for a child that ended.
    Exited,
    /// Return for a child that was stopped and is not traced.
    Untraced,
    /// Return for a child that was stopped.
    Stopped,
    /// Return for a child that was resumed.
    Continued,
}

impl WaitOption {
    /// The option is about stopped children.
    pub open spec fn is_about_stops(self) -> bool {
        self is Untraced || self is Stopped
    }
}

/// The bits of a set of wait options.
pub uninterp spec fn wait_flag_bits(flags: WaitPidFlag) -> i32;

/// The bits of the constant of nix for an option.
pub uninterp spec fn wait_option_bits(option: WaitOption) -> i32;

/// The constants `WNOHANG`, `WNOWAIT`, `WEXITED`, `WUNTRACED`, `WSTOPPED` and `WCONTINUED` of
/// `nix::sys::wait::WaitPidFlag`. Each has a bit of its own, except that a platform may use the same
/// one for `WUNTRACED` and `WSTOPPED`.
#[verifier::external_body]
pub(crate) fn wait_flag(option: WaitOption) -> (flags: WaitPidFlag)
    ensures
        wait_flag_bits(flags) == wait_option_bits(option),
        wait_flag_bits(flags) != 0,
        forall|other: WaitOption|
            other != option && !(option.is_about_stops() && other.is_about_stops())
                ==> wait_flag_bits(flags) & #[trigger] wait_option_bits(other) == 0,
{
    match option {
        WaitOption::NoHang => WaitPidFlag::WNOHANG,
        WaitOption::NoWait => WaitPidFlag::WNOWAIT,
        WaitOption::Exited => WaitPidFlag::WEXITED,
        WaitOption::Untraced => WaitPidFlag::WUNTRACED,
        WaitOption::Stopped => WaitPidFlag::WSTOPPED,
        WaitOption::Continued => WaitPidFlag::WCONTINUED,
    }
}

/// `nix::sys::wait::WaitPidFlag::empty`: no bit at all.
pub assume_specification [nix::sys::wait::WaitPidFlag::empty]() -> (flags:
    nix::sys::wait::WaitPidFlag)
    ensures
        wait_flag_bits(flags) == 0,
;

/// `nix::sys::wait::WaitPidFlag::insert`: adds the bits of the other options.
pub assume_specification [nix::sys::wait::WaitPidFlag::insert](
    flags: &mut nix::sys::wait::WaitPidFlag,
    other: nix::sys::wait::WaitPidFlag,
)
    ensures
        wait_flag_bits(*final(flags)) == wait_flag_bits(*old(flags)) | wait_flag_bits(other),
;

} // verus!
