use vstd::prelude::*;

verus! {

/// Length of one simulation tick in microseconds (a 60 Hz step).
pub const DELTA: u64 = 16_667;

/// What a rate given per second amounts to over one tick, rounded down.
pub open spec fn per_tick(rate: int) -> int {
    rate * DELTA as int / 1_000_000
}

} // verus!
