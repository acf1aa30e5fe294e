//! The Windows sleep guard: which execution-state flags keep the machine awake,
//! and what the operating system's answer means.

use vstd::prelude::*;

verus! {

/// `ES_CONTINUOUS`: the state applies until it is changed again.
pub const ES_CONTINUOUS: u32 = 0x8000_0000u32;

/// `ES_SYSTEM_REQUIRED`: the system must not sleep.
pub const ES_SYSTEM_REQUIRED: u32 = 0x0000_0001u32;

/// The flags that switch the sleep guard: while it is enabled the system is
/// required to stay awake; disabling it keeps only the continuous flag.
pub fn sleep_guard_flags(enabled: bool) -> (r: u32)
    ensures
        r == (if enabled {
            ES_CONTINUOUS | ES_SYSTEM_REQUIRED
        } else {
            ES_CONTINUOUS
        }),
{
    assert(0x8000_0000u32 | 0x0000_0001u32 == 0x8000_0001u32) by (bit_vector);
    if enabled {
        0x8000_0001u32
    } else {
        0x8000_0000u32
    }
}

/// The message when the operating system refused the execution state.
pub open spec fn sleep_guard_failure_text() -> Seq<char> {
    "SetThreadExecutionState failed"@
}

/// The outcome of switching the sleep guard, given the previous execution state
/// that the operating system returned for the flags: zero means it refused.
pub fn set_sleep_guard_os(previous_state: u32) -> (r: Result<(), String>)
    ensures
        r is Ok <==> previous_state != 0,
        r matches Err(e) ==> e@ == sleep_guard_failure_text(),
{
    if previous_state == 0 {
        Err(String::from_str("SetThreadExecutionState failed"))
    } else {
        Ok(())
    }
}

} // verus!
