//! The flags that the system calls of a run are given.

use vstd::prelude::*;
use nix::fcntl::FdFlag;
use nix::sys::wait::WaitPidFlag;
use crate::outside::{
    close_on_exec, fd_flag_bits, wait_flag, wait_flag_bits, wait_option_bits, WaitOption,
};

verus! {

/// The bits of the options to wait for a child with.
pub open spec fn wait_bits(stopped: bool) -> i32 {
    wait_option_bits(WaitOption::Continued) | wait_option_bits(WaitOption::Untraced) | (if stopped {
        wait_option_bits(WaitOption::Stopped)
    } else {
        0
    })
}

/// The options to wait for a child with: besides its end, the call returns when the child is stopped
/// or resumed. Not every platform knows a separate option for stopped children; `stopped` says
/// whether to set it. No other option is set.
pub fn wait_flags(stopped: bool) -> (flags: Option<WaitPidFlag>)
    ensures
        flags matches Some(f) && {
            &&& wait_flag_bits(f) == wait_bits(stopped)
            &&& forall|option: WaitOption|
                option is NoHang || option is NoWait || option is Exited ==> wait_flag_bits(f)
                    & #[trigger] wait_option_bits(option) == 0
        },
{
    let mut flags = WaitPidFlag::empty();
    let continued = wait_flag(WaitOption::Continued);
    flags.insert(continued);
    let ghost c = wait_flag_bits(continued);
    let ghost mut s = 0i32;
    if stopped {
        let stops = wait_flag(WaitOption::Stopped);
        flags.insert(stops);
        proof {
            s = wait_flag_bits(stops);
        }
    }
    let untraced = wait_flag(WaitOption::Untraced);
    flags.insert(untraced);
    let ghost u = wait_flag_bits(untraced);
    assert(0i32 | c | u == c | u | 0i32 && 0i32 | c | s | u == c | u | s) by (bit_vector);
    assert forall|option: WaitOption|
        option is NoHang || option is NoWait || option is Exited implies wait_flag_bits(flags)
        & #[trigger] wait_option_bits(option) == 0 by {
        let x = wait_option_bits(option);
        assert(0i32 & x == 0) by (bit_vector);
        assert((c | u | s) & x == 0) by (bit_vector)
            requires
                c & x == 0,
                u & x == 0,
                s & x == 0,
        ;
    }
    Some(flags)
}

/// The flags to set on a file descriptor that has the given ones, so that it is closed when the
/// process executes another program.
pub fn close_on_exec_flags(current: i32) -> (flags: FdFlag)
    ensures
        fd_flag_bits(flags) == 1,
{
    match FdFlag::from_bits(current) {
        Some(mut flags) => {
            flags.insert(close_on_exec());
            assert(0i32 | 1i32 == 1i32 && 1i32 | 1i32 == 1i32) by (bit_vector);
            flags
        },
        None => close_on_exec(),
    }
}

} // verus!
