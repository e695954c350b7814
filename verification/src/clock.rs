//! The spawn clock: a fixed-period wall-clock timer, fed with elapsed time
//! and reporting how many whole periods went by. The host drives it with
//! whatever time slices its scheduler hands out; how the slices are cut does
//! not change how often the clock fires.

use vstd::prelude::*;

use vstd::arithmetic::div_mod::{lemma_fundamental_div_mod, lemma_hoist_over_denominator};

verus! {

/// How many whole periods a timer completes when `elapsed` more milliseconds
/// pass, `carry` milliseconds after its last completed period. A span ending
/// exactly on a period boundary counts that period as fired.
pub open spec fn periods_elapsed(carry: int, elapsed: int, period: int) -> int {
    (carry + elapsed) / period
}

/// A fixed-period timer. It keeps only the time carried past the last
/// completed period, so it never accumulates an unbounded count.
pub struct SpawnClock {
    /// The fixed wall-clock period in milliseconds.
    pub period_ms: u64,
    /// Milliseconds that passed since the last completed period.
    pub carry_ms: u64,
}

impl SpawnClock {
    /// Well-formed clock: a positive period, and a carry strictly inside it.
    pub open spec fn wf(self) -> bool {
        0 < self.period_ms && self.carry_ms < self.period_ms
    }

    /// A fresh clock that has just started its first period.
    pub fn new(period_ms: u64) -> (c: SpawnClock)
        requires
            period_ms > 0,
        ensures
            c.wf(),
            c.period_ms == period_ms,
            c.carry_ms == 0,
    {
        SpawnClock { period_ms, carry_ms: 0 }
    }

    /// Feeds `elapsed_ms` more milliseconds to the clock and returns how many
    /// whole periods that completed.
    pub fn advance(&mut self, elapsed_ms: u64) -> (fires: u64)
        requires
            old(self).wf(),
            old(self).carry_ms + elapsed_ms <= u64::MAX,
        ensures
            final(self).wf(),
            final(self).period_ms == old(self).period_ms,
            fires as int == periods_elapsed(
                old(self).carry_ms as int,
                elapsed_ms as int,
                old(self).period_ms as int,
            ),
            final(self).carry_ms as int == (old(self).carry_ms + elapsed_ms) % (
            old(self).period_ms as int),
    {
        let total = self.carry_ms + elapsed_ms;
        let fires = total / self.period_ms;
        self.carry_ms = total % self.period_ms;
        fires
    }
}

/// Cutting a span of elapsed time in two and feeding the parts one after the
/// other fires the clock exactly as often as feeding the whole span at once:
/// the spawn cadence depends only on total elapsed time.
pub proof fn lemma_periods_add_up(carry: int, d1: int, d2: int, period: int)
    requires
        0 < period,
        0 <= carry < period,
        0 <= d1,
        0 <= d2,
    ensures
        periods_elapsed(carry, d1, period) + periods_elapsed(
            (carry + d1) % period,
            d2,
            period,
        ) == periods_elapsed(carry, d1 + d2, period),
{
    let t = carry + d1;
    let q = t / period;
    let r = t % period;
    lemma_fundamental_div_mod(t, period);
    lemma_hoist_over_denominator(r + d2, q, period as nat);
    assert(q * period == period * q) by (nonlinear_arith);
    assert(r + d2 + q * period == t + d2);
}

} // verus!
