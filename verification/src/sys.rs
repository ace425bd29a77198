//! Thin descriptions of the kernel's own primitives.
use crate::raw::Call;
use vstd::prelude::*;

pub mod queue;
pub mod sync;
pub mod thread;
pub mod timer;

verus! {

/// The tick count of a timeout that never expires.
pub const K_FOREVER: i64 = -1;

/// The tick count of a timeout that does not wait.
pub const K_NO_WAIT: i64 = 0;

/// Ask for the uptime of the system, in milliseconds.
pub fn uptime_get() -> (call: Call)
    ensures
        call == Call::UptimeGet,
{
    Call::UptimeGet
}

} // verus!
