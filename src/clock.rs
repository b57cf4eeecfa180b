//! Per-move time budget under a tournament clock.
use vstd::prelude::*;

verus! {

/// Milliseconds held back from every budget for communication latency.
pub const TIME_OVERHEAD: u64 = 50;

/// Remaining clock time less the overhead, clamped at zero.
pub open spec fn effective_time(time: u64) -> int {
    if time >= TIME_OVERHEAD {
        time - TIME_OVERHEAD
    } else {
        0
    }
}

/// The budget in milliseconds: moves-to-go takes priority over the increment.
pub open spec fn allocate(time: u64, increment: Option<u64>, moves_to_go: Option<u64>) -> int {
    let t = effective_time(time);
    match moves_to_go {
        Some(n) => if n == 0 { t } else { t / (n as int) },
        None => match increment {
            Some(i) => t / 20 + (i as int) / 2,
            None => t / 20,
        },
    }
}

/// Time in milliseconds to spend on the next move, given the remaining
/// clock time, the optional increment and the optional moves-to-go count.
pub fn time_for_move(time: u64, increment: Option<u64>, moves_to_go: Option<u64>) -> (r: u64)
    ensures
        r as int == allocate(time, increment, moves_to_go),
{
    let t: u64 = time.saturating_sub(TIME_OVERHEAD);
    match moves_to_go {
        Some(n) => {
            let d: u64 = if n == 0 { 1 } else { n };
            t / d
        },
        None => match increment {
            Some(i) => {
                assert(t / 20 <= u64::MAX / 20) by (nonlinear_arith);
                assert(i / 2 <= u64::MAX / 2) by (nonlinear_arith);
                t / 20 + i / 2
            },
            None => t / 20,
        },
    }
}

} // verus!
