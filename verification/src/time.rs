//! Waiting for time to pass.
use vstd::prelude::*;

use crate::platform::fut::{FutState, IoUringFut};
use crate::platform::ops;
use crate::platform::ops::is_future_of;
use crate::platform::sqe::Op;

verus! {

/// The future waits for this many nanoseconds, given as whole seconds and what is left.
pub open spec fn waits_for(fut: IoUringFut, nanos: int) -> bool {
    &&& fut.entry().op matches Op::Timeout { sec, nsec }
    &&& sec * 1_000_000_000 + nsec == nanos
    &&& nsec < 1_000_000_000
    &&& fut.entry().user_data == 0
    &&& fut.progress() == FutState::NotSubmitted
}

/// Waits for the specified number of seconds and nanoseconds.
pub fn sleep(secs: u64, nanos: u32) -> (fut: IoUringFut)
    ensures
        is_future_of(fut, Op::Timeout { sec: secs, nsec: nanos }),
{
    ops::sleep(secs, nanos)
}

/// Waits for the specified number of milliseconds.
pub fn sleep_millis(dur: u64) -> (fut: IoUringFut)
    ensures
        waits_for(fut, dur * 1_000_000),
{
    sleep(dur / 1_000, (dur % 1_000) as u32 * 1_000_000)
}

/// Waits for the specified number of microseconds.
pub fn sleep_micros(dur: u64) -> (fut: IoUringFut)
    ensures
        waits_for(fut, dur * 1_000),
{
    sleep(dur / 1_000_000, (dur % 1_000_000) as u32 * 1_000)
}

/// Waits for the specified number of seconds.
pub fn sleep_secs(dur: u64) -> (fut: IoUringFut)
    ensures
        waits_for(fut, dur * 1_000_000_000),
{
    sleep(dur, 0)
}

/// A wait lasts as long as it is meant to: its seconds and nanoseconds add up to it, and one wait
/// does not last for two different times.
pub proof fn law_wait_lasts_as_long_as_meant(fut: IoUringFut, nanos: int, other: int)
    requires
        waits_for(fut, nanos),
    ensures
        fut.entry().op is Timeout,
        fut.entry().op->sec * 1_000_000_000 + fut.entry().op->nsec == nanos,
        fut.entry().op->nsec < 1_000_000_000,
        fut.entry().user_data == 0,
        fut.progress() is NotSubmitted,
        waits_for(fut, other) ==> other == nanos,
{
}

} // verus!
