//! The one computation behind the status panel: turning raw memory
//! counters into a utilization percentage. Querying the counters is I/O
//! the unverified shell performs; it hands the two numbers in.

use vstd::prelude::*;

verus! {

/// Memory utilization in tenths of a percent: `used / total * 100`,
/// rounded down to one decimal. A total of zero has no defined
/// percentage; the fallback is zero.
pub open spec fn memory_percent_tenths_of(used: u64, total: u64) -> int {
    if total == 0 {
        0
    } else {
        (used * 1000) / (total as int)
    }
}

/// Compute memory utilization in tenths of a percent from the raw used
/// and total byte counters, reporting zero when the total reads as zero.
///
/// Utilization is a percentage, so the used counter never exceeds the
/// total one.
pub fn memory_percent_tenths(used: u64, total: u64) -> (r: u64)
    requires
        used <= total,
    ensures
        r as int == memory_percent_tenths_of(used, total),
        r <= 1000,
{
    if total == 0 {
        0
    } else {
        let wide: u128 = (used as u128) * 1000 / (total as u128);
        proof {
            assert((used * 1000) / (total as int) <= 1000) by (nonlinear_arith)
                requires
                    0 < total,
                    used <= total,
            ;
        }
        wide as u64
    }
}

} // verus!
