//! Small arithmetic helpers shared by the scoring and scheduling modules.

use vstd::prelude::*;

verus! {

/// `x`, capped at `cap`.
pub open spec fn spec_capped(x: int, cap: int) -> int {
    if x > cap {
        cap
    } else {
        x
    }
}

/// Saturating addition of two counters.
pub open spec fn spec_sat_add_u64(x: u64, y: u64) -> u64 {
    if x + y > u64::MAX {
        u64::MAX
    } else {
        (x + y) as u64
    }
}

} // verus!
