use vstd::prelude::*;

use crate::time::{per_tick, DELTA};

verus! {

/// Energy pool in thousandths of a unit, regained at `energy_regain`
/// thousandths per second.
///
/// An `unlimited` pool pays for everything without being drawn down.
#[derive(Clone, Copy, Debug, PartialEq, Eq)]
pub struct Energy {
    pub cur_energy: u64,
    pub max_energy: u64,
    pub energy_regain: u64,
    pub unlimited: bool,
}

/// Energy after one tick of regeneration: a linear approach to the maximum
/// that stops exactly there.
pub open spec fn regenerated(e: Energy) -> Energy {
    let gain = per_tick(e.energy_regain as int);
    if e.unlimited || e.cur_energy == e.max_energy {
        e
    } else if e.max_energy - e.cur_energy > gain {
        Energy { cur_energy: (e.cur_energy + gain) as u64, ..e }
    } else {
        Energy { cur_energy: e.max_energy, ..e }
    }
}

/// Whether a spend of `amount` succeeds, and the pool after it.
pub open spec fn spent(e: Energy, amount: int) -> (bool, Energy) {
    if e.unlimited {
        (true, e)
    } else if e.cur_energy >= amount {
        (true, Energy { cur_energy: (e.cur_energy - amount) as u64, ..e })
    } else {
        (false, e)
    }
}

impl Energy {
    /// A full pool of 100 units regaining 7.5 units per second.
    pub open spec fn default_spec() -> Energy {
        Energy { cur_energy: 100_000, max_energy: 100_000, energy_regain: 7_500, unlimited: false }
    }

    /// A full pool of 100 units regaining 7.5 units per second.
    pub fn full() -> (r: Energy)
        ensures
            r == Energy::default_spec(),
            r.wf(),
    {
        Energy { cur_energy: 100_000, max_energy: 100_000, energy_regain: 7_500, unlimited: false }
    }

    /// The current amount never exceeds the maximum.
    pub open spec fn wf(&self) -> bool {
        self.cur_energy <= self.max_energy
    }

    /// Spends `amount` if the pool holds that much; otherwise leaves it as it
    /// is and reports failure.
    pub fn try_to_use_energy(&mut self, amount: u64) -> (r: bool)
        ensures
            (r, *final(self)) == spent(*old(self), amount as int),
            old(self).wf() ==> final(self).wf(),
    {
        if self.unlimited {
            true
        } else if self.cur_energy < amount {
            false
        } else {
            self.cur_energy = self.cur_energy - amount;
            true
        }
    }

    /// Regains energy for one tick.
    pub fn update(&mut self)
        requires
            old(self).wf(),
        ensures
            *final(self) == regenerated(*old(self)),
            final(self).wf(),
    {
        if !self.unlimited && self.cur_energy != self.max_energy {
            let gain = per_tick_u64(self.energy_regain);
            if self.max_energy - self.cur_energy > gain {
                self.cur_energy = self.cur_energy + gain;
            } else {
                self.cur_energy = self.max_energy;
            }
        }
    }
}

/// What a per-second rate amounts to in one tick.
pub fn per_tick_u64(rate: u64) -> (r: u64)
    ensures
        r == per_tick(rate as int),
        r <= rate,
{
    proof {
        assert(rate as int * DELTA as int <= 0xffff_ffff_ffff_ffff * 1_000_000) by (nonlinear_arith)
            requires rate <= 0xffff_ffff_ffff_ffffu64, DELTA as int <= 1_000_000;
    }
    let prod: u128 = rate as u128 * DELTA as u128;
    proof {
        assert(rate as int * DELTA as int / 1_000_000 <= rate) by (nonlinear_arith)
            requires DELTA as int <= 1_000_000, rate >= 0;
    }
    (prod / 1_000_000) as u64
}

/// A tick of regeneration never lifts energy above its maximum, whatever the
/// regeneration rate.
pub proof fn lemma_regen_bounded(e: Energy)
    requires
        e.wf(),
    ensures
        regenerated(e).cur_energy <= regenerated(e).max_energy,
        regenerated(e).max_energy == e.max_energy,
        regenerated(e).cur_energy >= e.cur_energy,
{
}

/// Spending is all or nothing: either the whole amount leaves a limited pool
/// and the spend succeeds, or the pool is unchanged and the spend fails.
pub proof fn lemma_spend_atomic(e: Energy, amount: u64)
    requires
        !e.unlimited,
    ensures
        spent(e, amount as int).0 ==> spent(e, amount as int).1.cur_energy + amount
            == e.cur_energy,
        !spent(e, amount as int).0 ==> spent(e, amount as int).1 == e,
        spent(e, amount as int).1.max_energy == e.max_energy,
{
}

impl Default for Energy {
    /// A full pool of 100 units regaining 7.5 units per second.
    fn default() -> (r: Energy)
        ensures
            r == Energy::default_spec(),
    {
        Energy::full()
    }
}

} // verus!
