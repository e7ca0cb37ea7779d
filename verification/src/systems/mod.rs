//! What the host runs each tick.

pub mod events;
pub mod webview;

use vstd::prelude::*;

verus! {

/// Whether more than one second has passed since the host started, given the
/// time since then as whole seconds and the nanoseconds beyond them.
pub fn boot_delay_elapsed(elapsed_secs: u64, elapsed_subsec_nanos: u32) -> (elapsed: bool)
    ensures
        elapsed == (elapsed_secs * 1_000_000_000 + elapsed_subsec_nanos > 1_000_000_000),
{
    elapsed_secs > 1 || (elapsed_secs == 1 && elapsed_subsec_nanos > 0) || elapsed_subsec_nanos
        > 1_000_000_000
}

} // verus!
