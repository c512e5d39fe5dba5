//! The spawn scheduler: a repeating countdown whose interval shrinks by two
//! percent each time it fires, so that bugs appear faster and faster.

use vstd::prelude::*;
use vstd::arithmetic::power::{lemma_pow_positive, pow};
use crate::units::BASE_INTERVAL;
use crate::world::SpawnScheduler;

verus! {

/// An interval after one fire: 49/50 of what it was, rounded down to whole
/// microseconds.
pub open spec fn shrunk(interval: nat) -> nat {
    interval * 49 / 50
}

/// An interval of `start` microseconds after `fires` fires.
pub open spec fn interval_after(start: nat, fires: nat) -> nat
    decreases fires,
{
    if fires == 0 {
        start
    } else {
        shrunk(interval_after(start, (fires - 1) as nat))
    }
}

impl SpawnScheduler {
    /// The scheduler at the start of a round.
    pub open spec fn fresh() -> SpawnScheduler {
        SpawnScheduler { interval: BASE_INTERVAL, elapsed: 0 }
    }

    /// Whether `dt` more microseconds complete the current interval.
    pub open spec fn fires(self, dt: u64) -> bool {
        self.elapsed + dt >= self.interval
    }

    /// The scheduler `dt` microseconds later. When the interval is complete
    /// the count starts again from zero on a shorter interval; time beyond the
    /// end of the interval is not carried over.
    pub open spec fn after_tick(self, dt: u64) -> SpawnScheduler {
        if self.fires(dt) {
            SpawnScheduler { interval: shrunk(self.interval as nat) as u64, elapsed: 0 }
        } else {
            SpawnScheduler { interval: self.interval, elapsed: (self.elapsed + dt) as u64 }
        }
    }

    /// The scheduler after a run of frames of the given lengths.
    pub open spec fn after_ticks(self, frames: Seq<u64>) -> SpawnScheduler
        decreases frames.len(),
    {
        if frames.len() == 0 {
            self
        } else {
            self.after_ticks(frames.drop_last()).after_tick(frames.last())
        }
    }

    /// How often the scheduler fires during a run of frames.
    pub open spec fn fires_during(self, frames: Seq<u64>) -> nat
        decreases frames.len(),
    {
        if frames.len() == 0 {
            0
        } else {
            let earlier = self.fires_during(frames.drop_last());
            if self.after_ticks(frames.drop_last()).fires(frames.last()) {
                earlier + 1
            } else {
                earlier
            }
        }
    }

    /// The scheduler at the start of a round: two seconds to the first
    /// spawn.
    pub fn new() -> (scheduler: SpawnScheduler)
        ensures
            scheduler == SpawnScheduler::fresh(),
    {
        SpawnScheduler { interval: BASE_INTERVAL, elapsed: 0 }
    }

    /// Whether the scheduler would fire if `dt` microseconds passed now.
    pub fn is_due(&self, dt: u64) -> (due: bool)
        ensures
            due == self.fires(dt),
    {
        self.elapsed >= self.interval || dt >= self.interval - self.elapsed
    }

    /// Lets `dt` microseconds pass and says whether the scheduler fired.
    pub fn tick(&mut self, dt: u64) -> (fired: bool)
        ensures
            fired == old(self).fires(dt),
            *final(self) == old(self).after_tick(dt),
    {
        if self.is_due(dt) {
            let wide: u128 = self.interval as u128 * 49 / 50;
            self.interval = wide as u64;
            self.elapsed = 0;
            true
        } else {
            self.elapsed = self.elapsed + dt;
            false
        }
    }

    /// Puts the scheduler back to the start of a round.
    pub fn reset(&mut self)
        ensures
            *final(self) == SpawnScheduler::fresh(),
    {
        self.interval = BASE_INTERVAL;
        self.elapsed = 0;
    }
}

/// The interval depends on nothing but the interval at the start and the
/// number of fires since: however the time was cut into frames, after `n`
/// fires it is `interval_after(start, n)`.
pub proof fn lemma_interval_counts_fires(scheduler: SpawnScheduler, frames: Seq<u64>)
    ensures
        scheduler.after_ticks(frames).interval == interval_after(
            scheduler.interval as nat,
            scheduler.fires_during(frames),
        ),
    decreases frames.len(),
{
    if frames.len() > 0 {
        lemma_interval_counts_fires(scheduler, frames.drop_last());
        let earlier = scheduler.after_ticks(frames.drop_last());
        assert(shrunk(earlier.interval as nat) <= earlier.interval);
    }
}

/// Every fire makes the interval strictly shorter, until it has shrunk to
/// nothing.
pub proof fn lemma_interval_strictly_decreases(start: nat, fires: nat)
    ensures
        interval_after(start, fires + 1) <= interval_after(start, fires),
        interval_after(start, fires) > 0 ==> interval_after(start, fires + 1) < interval_after(
            start,
            fires,
        ),
{
    let before = interval_after(start, fires);
    assert(interval_after(start, fires + 1) == shrunk(before));
}

/// The interval after `fires` fires is the starting interval times
/// `0.98^fires`, short of it by less than fifty microseconds: the roundings
/// of all the fires together never add up to more. Both bounds are stated
/// with the division by `50^fires` multiplied out.
pub proof fn lemma_interval_closed_form(start: nat, fires: nat)
    ensures
        interval_after(start, fires) * pow(50, fires) <= start * pow(49, fires),
        start * pow(49, fires) < (interval_after(start, fires) + 50) * pow(50, fires),
    decreases fires,
{
    reveal(pow);
    if fires == 0 {
        assert(pow(50, 0) == 1);
        assert(pow(49, 0) == 1);
    } else {
        let n = (fires - 1) as nat;
        lemma_interval_closed_form(start, n);
        lemma_pow_positive(50, n);
        let before = interval_after(start, n) as int;
        let after = interval_after(start, fires) as int;
        let p50 = pow(50, n);
        let p49 = pow(49, n);
        let s = start as int;
        assert(after == before * 49 / 50);
        assert(50 * after <= 49 * before < 50 * after + 50);
        assert(pow(50, fires) == 50 * p50);
        assert(pow(49, fires) == 49 * p49);
        assert(after * (50 * p50) <= s * (49 * p49)) by (nonlinear_arith)
            requires
                50 * after <= 49 * before,
                before * p50 <= s * p49,
                p50 > 0,
        ;
        assert(s * (49 * p49) < (after + 50) * (50 * p50)) by (nonlinear_arith)
            requires
                49 * before < 50 * after + 50,
                s * p49 < (before + 50) * p50,
                p50 > 0,
        ;
    }
}

} // verus!
