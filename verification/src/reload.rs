//! When an edited shader is recompiled: editors emit several file events per
//! save, so events arriving within a short window after the last reload are
//! coalesced into it.

use vstd::prelude::*;

verus! {

/// Events closer than this (100 ms, in nanoseconds) to the previous reload
/// are coalesced into it.
pub const RELOAD_DEBOUNCE_NANOS: u128 = 100_000_000;

/// A reload is due when a watched file reported a change and at least the
/// debounce window has passed since the previous reload.
pub fn reload_due(saw_change: bool, nanos_since_last_reload: u128) -> (r: bool)
    ensures
        r == (saw_change && nanos_since_last_reload >= RELOAD_DEBOUNCE_NANOS),
{
    saw_change && nanos_since_last_reload >= RELOAD_DEBOUNCE_NANOS
}

} // verus!
