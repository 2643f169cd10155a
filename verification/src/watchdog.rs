//! The watchdog pipe between the runtime and the shim.
//!
//! The runtime keeps the write end of a pipe for as long as it wants the VM
//! to live. The shim inherits the read end, learns its number from the
//! environment, and polls it: when the runtime dies or lets go, the pipe hangs
//! up, and the shim exits.

use vstd::prelude::*;
use vstd::string::*;
use crate::text::{decimal_signed, parse_i32, spec_decimal_signed, spec_parse_signed};

verus! {

/// Variable that names the read end of the pipe to the shim.
pub const ENV_WATCHDOG_FD: &'static str = "BUX_WATCHDOG_FD";

/// Bit of the poll result that says the other end hung up.
pub const POLLHUP: i16 = 0x10;

/// The value of [`ENV_WATCHDOG_FD`] for the descriptor `fd`: its number in
/// decimal.
pub fn watchdog_env_value(fd: i32) -> (r: String)
    ensures
        r@ == spec_decimal_signed(fd as int),
{
    decimal_signed(fd as i64)
}

/// Reads the value of [`ENV_WATCHDOG_FD`]. A value that is no number means
/// that there is no watchdog.
pub fn parse_watchdog_fd(value: &str) -> (r: Option<i32>)
    ensures
        match spec_parse_signed(value@, i32::MIN as int, i32::MAX as int) {
            Some(v) => r is Some && r->Some_0 == v,
            None => r is None,
        },
{
    parse_i32(value)
}

/// What the shim does after a poll of the pipe.
#[derive(Debug, Clone, Copy, PartialEq, Eq, Structural)]
pub enum WatchdogStep {
    /// The parent is gone: exit.
    ParentGone,
    /// Nothing happened: poll again.
    PollAgain,
}

/// What a poll means. `ret` is what the poll returned, `revents` what it
/// reported of the pipe, and `interrupted` whether a failed poll was only
/// interrupted. A pipe that hung up means that the parent is gone, and so
/// does a poll that failed for good.
pub open spec fn spec_after_poll(ret: i32, revents: i16, interrupted: bool) -> WatchdogStep {
    if ret > 0 && (revents & POLLHUP) != 0 {
        WatchdogStep::ParentGone
    } else if ret < 0 && !interrupted {
        WatchdogStep::ParentGone
    } else {
        WatchdogStep::PollAgain
    }
}

/// Says what the shim does after a poll of the pipe.
pub fn after_poll(ret: i32, revents: i16, interrupted: bool) -> (r: WatchdogStep)
    ensures
        r == spec_after_poll(ret, revents, interrupted),
{
    if ret > 0 && (revents & POLLHUP) != 0 {
        WatchdogStep::ParentGone
    } else if ret < 0 && !interrupted {
        WatchdogStep::ParentGone
    } else {
        WatchdogStep::PollAgain
    }
}

/// Whatever else a poll reports, a pipe that hung up ends the shim at once.
pub proof fn lemma_hangup_ends(ret: i32, revents: i16, interrupted: bool)
    requires
        ret > 0,
        (revents & POLLHUP) != 0,
    ensures
        spec_after_poll(ret, revents, interrupted) == WatchdogStep::ParentGone,
{
}

} // verus!
