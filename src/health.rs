use vstd::prelude::*;

verus! {

/// Penetration is given in thousandths: `PEN_SCALE` means all damage bypasses armour.
pub const PEN_SCALE: u32 = 1000;

/// Smallest hit-point value a `Health` holds: hits stop lowering hit points
/// there, far below death, so that they always fit in an `i64`.
pub const HP_FLOOR: i64 = -4_000_000_000_000_000_000;

/// Hit points after a loss, stopped at `HP_FLOOR`.
pub open spec fn floored(v: int) -> int {
    if v < HP_FLOOR {
        HP_FLOOR as int
    } else {
        v
    }
}

/// Hit points and armour of a living thing.
///
/// The `unlimited_*` flags stand for the "infinite" cheat values: a pool marked
/// unlimited is never reduced by damage.
#[derive(Clone, Copy, Debug, PartialEq, Eq)]
pub struct Health {
    pub hp: i64,
    pub armour: i64,
    pub unlimited_hp: bool,
    pub unlimited_armour: bool,
}

/// The part of `amount` that bypasses armour.
pub open spec fn penetrating_part(amount: int, penetration: int) -> int {
    amount * penetration / (PEN_SCALE as int)
}

/// The part of `amount` that armour tries to absorb.
pub open spec fn absorbed_part(amount: int, penetration: int) -> int {
    amount - penetrating_part(amount, penetration)
}

/// Health after a hit of `amount` with the given penetration.
pub open spec fn damaged(h: Health, amount: int, penetration: int) -> Health {
    let pen = penetrating_part(amount, penetration);
    let abs = absorbed_part(amount, penetration);
    let (hp_loss, armour_after) = if h.unlimited_armour {
        (pen, h.armour as int)
    } else if h.armour >= abs {
        (pen, h.armour - abs)
    } else {
        (pen + (abs - h.armour), 0)
    };
    Health {
        hp: if h.unlimited_hp { h.hp } else { floored(h.hp - hp_loss) as i64 },
        armour: armour_after as i64,
        ..h
    }
}

impl Health {
    /// Full hit points and armour, nothing unlimited.
    pub open spec fn new_spec() -> Health {
        Health { hp: 100, armour: 100, unlimited_hp: false, unlimited_armour: false }
    }

    /// Armour is never negative and hit points never below `HP_FLOOR`.
    pub open spec fn wf(&self) -> bool {
        self.armour >= 0 && self.hp >= HP_FLOOR
    }

    /// Full hit points and armour.
    pub fn new() -> (r: Health)
        ensures
            r == Health::new_spec(),
            r.wf(),
    {
        Health { hp: 100, armour: 100, unlimited_hp: false, unlimited_armour: false }
    }

    /// Dead when hit points reach zero; unlimited hit points never die.
    pub open spec fn dead(&self) -> bool {
        !self.unlimited_hp && self.hp <= 0
    }

    /// Dead when hit points reach zero; unlimited hit points never die.
    pub fn is_dead(&self) -> (r: bool)
        ensures
            r == self.dead(),
    {
        !self.unlimited_hp && self.hp <= 0
    }

    /// Takes a hit of `amount`, of which `penetration` thousandths go straight
    /// to hit points and the rest is absorbed by armour as far as it reaches.
    pub fn weapon_damage(&mut self, amount: u32, penetration: u32)
        requires
            old(self).wf(),
            penetration <= PEN_SCALE,
        ensures
            *final(self) == damaged(*old(self), amount as int, penetration as int),
            final(self).wf(),
    {
        proof {
            assert(amount as int * penetration as int <= amount as int * 1000) by (nonlinear_arith)
                requires penetration <= 1000;
        }
        let prod: u64 = amount as u64 * penetration as u64;
        proof {
            assert(prod / 1000 <= amount) by (nonlinear_arith)
                requires prod <= amount as int * 1000;
        }
        let pen: i64 = (prod / PEN_SCALE as u64) as i64;
        let abs: i64 = amount as i64 - pen;
        let hp_loss: i64;
        if self.unlimited_armour {
            hp_loss = pen;
        } else if self.armour >= abs {
            self.armour = self.armour - abs;
            hp_loss = pen;
        } else {
            hp_loss = pen + (abs - self.armour);
            self.armour = 0;
        }
        if !self.unlimited_hp {
            if (self.hp as i128) - (hp_loss as i128) < HP_FLOOR as i128 {
                self.hp = HP_FLOOR;
            } else {
                self.hp = self.hp - hp_loss;
            }
        }
    }
}

/// A hit never drives armour below zero and moves exactly `amount` out of
/// hit points and armour together: damage is neither amplified nor lost.
/// Hit points stay non-negative whenever the hit is no larger than them.
/// (Hits are counted in full down to `HP_FLOOR`, far below death.)
pub proof fn lemma_damage_conserved(h: Health, amount: u32, penetration: u32)
    requires
        h.wf(),
        penetration <= PEN_SCALE,
        h.hp - amount >= HP_FLOOR,
        !h.unlimited_hp,
        !h.unlimited_armour,
    ensures
        damaged(h, amount as int, penetration as int).armour >= 0,
        (h.hp + h.armour) - (damaged(h, amount as int, penetration as int).hp
            + damaged(h, amount as int, penetration as int).armour) == amount,
        amount <= h.hp ==> damaged(h, amount as int, penetration as int).hp >= 0,
{
    let a = amount as int;
    let p = penetration as int;
    assert(0 <= a * p <= a * 1000) by (nonlinear_arith)
        requires 0 <= p <= 1000, a >= 0;
    assert(0 <= a * p / 1000 <= a) by (nonlinear_arith)
        requires 0 <= a * p <= a * 1000;
}

impl Default for Health {
    fn default() -> (r: Health)
        ensures
            r.hp == 100 && r.armour == 100,
            !r.unlimited_hp && !r.unlimited_armour,
    {
        Health::new()
    }
}

} // verus!
