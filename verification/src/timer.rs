//! A repeating interval timer over whole time units.

use vstd::prelude::*;

verus! {

/// A repeating timer. It gathers the time that passes and reports, for each
/// advance, whether its period was completed by it; what was gathered beyond
/// the period is carried into the next round.
#[derive(Clone, Copy, Debug, PartialEq, Eq, Structural)]
pub struct IntervalTimer {
    /// The length of one round, in time units.
    pub period: u64,
    /// The time gathered in the current round.
    pub elapsed: u64,
    /// Whether the last advance completed a round.
    pub finished: bool,
}

impl IntervalTimer {
    /// Whether an advance by `delta` completes a round.
    pub open spec fn fires(self, delta: u64) -> bool {
        self.elapsed + delta >= self.period
    }

    /// The timer after an advance by `delta`.
    pub open spec fn after_tick(self, delta: u64) -> IntervalTimer {
        if self.period == 0 {
            IntervalTimer { period: 0, elapsed: 0, finished: true }
        } else if self.fires(delta) {
            IntervalTimer {
                period: self.period,
                elapsed: ((self.elapsed + delta) % (self.period as int)) as u64,
                finished: true,
            }
        } else {
            IntervalTimer {
                period: self.period,
                elapsed: (self.elapsed + delta) as u64,
                finished: false,
            }
        }
    }

    /// A timer of the given period with nothing gathered yet.
    pub fn new(period: u64) -> (r: IntervalTimer)
        ensures
            r == (IntervalTimer { period, elapsed: 0, finished: false }),
    {
        IntervalTimer { period, elapsed: 0, finished: false }
    }

    /// Whether the last advance completed a round.
    pub fn just_finished(&self) -> (r: bool)
        ensures
            r == self.finished,
    {
        self.finished
    }

    /// Whether an advance by `delta` would complete a round.
    pub fn would_fire(&self, delta: u64) -> (r: bool)
        ensures
            r == self.fires(delta),
    {
        self.elapsed as u128 + delta as u128 >= self.period as u128
    }

    /// Advances the timer by `delta` time units and says whether that
    /// completed a round. One advance reports at most one completion, however
    /// far it overshoots.
    pub fn tick(&mut self, delta: u64) -> (fired: bool)
        ensures
            fired == old(self).fires(delta),
            *final(self) == old(self).after_tick(delta),
    {
        let total: u128 = self.elapsed as u128 + delta as u128;
        if self.period == 0 {
            self.elapsed = 0;
            self.finished = true;
        } else if total >= self.period as u128 {
            let rest: u128 = total % (self.period as u128);
            self.elapsed = rest as u64;
            self.finished = true;
        } else {
            self.elapsed = total as u64;
            self.finished = false;
        }
        self.finished
    }
}

/// Time that stays under the period completes nothing, over any two advances:
/// it is only gathered.
pub proof fn lemma_timer_waits(t: IntervalTimer, first: u64, second: u64)
    requires
        t.elapsed + first + second < t.period,
    ensures
        !t.fires(first),
        !t.after_tick(first).fires(second),
        t.after_tick(first).after_tick(second).elapsed == t.elapsed + first + second,
        !t.after_tick(first).after_tick(second).finished,
{
}

/// The advance with which the gathered time reaches the period completes a
/// round, and the next round starts with what went beyond the period: an
/// overshoot by less than a period is not a second completion.
pub proof fn lemma_timer_fires_once(t: IntervalTimer, delta: u64)
    requires
        t.period > 0,
        t.elapsed < t.period,
        t.period <= t.elapsed + delta < 2 * t.period,
    ensures
        t.fires(delta),
        t.after_tick(delta).finished,
        t.after_tick(delta).elapsed == t.elapsed + delta - t.period,
        !t.after_tick(delta).fires(0),
{
    let total = t.elapsed + delta;
    let p = t.period as int;
    vstd::arithmetic::div_mod::lemma_small_mod((total - p) as nat, p as nat);
    vstd::arithmetic::div_mod::lemma_mod_add_multiples_vanish(total - p, p);
}

/// A timer keeps its period, and after any advance holds less than a period.
pub proof fn lemma_timer_elapsed_bound(t: IntervalTimer, delta: u64)
    requires
        t.period > 0,
    ensures
        t.after_tick(delta).period == t.period,
        t.after_tick(delta).elapsed < t.period,
{
    let total = t.elapsed + delta;
    let p = t.period as int;
    assert(0 <= total % p < p) by (nonlinear_arith)
        requires
            p > 0,
    ;
}

} // verus!
