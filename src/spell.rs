use vstd::prelude::*;

use crate::explosion::ExplosionMaker;
use crate::geom::Turn;
use crate::projectile::ProjectileMaker;
use crate::time::DELTA;

verus! {

/// Charge ratios are given in thousandths: `RATIO_SCALE` is a full charge.
pub const RATIO_SCALE: u64 = 1000;

/// Charge progress within this many thousandths after a pulse point still
/// fires a while-charging spell.
pub const PULSE_TOLERANCE: u64 = 11;

/// Head start, in microseconds, given to the charge before a pulse check.
pub const PULSE_LEAD: u64 = 10_000;

/// The element a spell slot can hold.
#[derive(Clone, Copy, Debug, PartialEq, Eq, Structural)]
pub enum Element {
    Water,
    Fire,
    Ice,
    Electric,
}

/// Name of an element as typed by a player, in lower case.
pub open spec fn element_named(s: Seq<char>) -> Option<Element> {
    if s == "water"@ {
        Some(Element::Water)
    } else if s == "fire"@ {
        Some(Element::Fire)
    } else if s == "ice"@ {
        Some(Element::Ice)
    } else if s == "electric"@ {
        Some(Element::Electric)
    } else {
        None
    }
}

/// What `str::to_lowercase` makes of a string.
pub uninterp spec fn lower_of(s: Seq<char>) -> Seq<char>;

/// Relies on `str::to_lowercase`: the result depends on the characters alone.
#[verifier::external_body]
fn lowercase(s: &str) -> (r: String)
    ensures
        r@ == lower_of(s@),
{
    s.to_lowercase()
}

/// Whether the string equals the literal.
pub(crate) fn same_text(s: &String, lit: &str) -> (r: bool)
    ensures
        r == (s@ == lit@),
{
    let t = lit.to_string();
    *s == t
}

impl Element {
    /// Sprite shown for the element in the slot bar.
    pub fn get_spr(self) -> (r: &'static str)
        ensures
            self == Element::Water ==> r@ == "spells/elements/water"@,
            self == Element::Fire ==> r@ == "spells/elements/fire"@,
            self == Element::Ice ==> r@ == "spells/elements/ice"@,
            self == Element::Electric ==> r@ == "spells/elements/electric"@,
    {
        match self {
            Element::Water => "spells/elements/water",
            Element::Fire => "spells/elements/fire",
            Element::Ice => "spells/elements/ice",
            Element::Electric => "spells/elements/electric",
        }
    }

    /// The element whose name is `lowered`, a string already in lower case.
    pub fn from_lowercase(lowered: &String) -> (r: Option<Element>)
        ensures
            r == element_named(lowered@),
    {
        if same_text(lowered, "water") {
            Some(Element::Water)
        } else if same_text(lowered, "fire") {
            Some(Element::Fire)
        } else if same_text(lowered, "ice") {
            Some(Element::Ice)
        } else if same_text(lowered, "electric") {
            Some(Element::Electric)
        } else {
            None
        }
    }

    /// The element named by `elem`, in any case.
    pub fn get_from_str(elem: &str) -> (r: Option<Element>)
        ensures
            r == element_named(lower_of(elem@)),
    {
        let lowered = lowercase(elem);
        Element::from_lowercase(&lowered)
    }
}

/// What a cast puts into the world.
#[derive(Clone, Copy, Debug, PartialEq, Eq, Structural)]
pub enum SpellType {
    Projectile,
    Explosion,
}

/// A quantity that a charge-up cast scales by its charge ratio.
#[derive(Clone, Copy, Debug, PartialEq, Eq, Structural)]
pub enum ChargeUpType {
    Damage,
    Range,
    Speed,
    Degrees,
}

/// When a held cast fires.
#[derive(Clone, Debug)]
pub enum CastType {
    /// Fires only once the full charge time is reached.
    EndOfCharge,
    /// Always fires, scaled by how far the charge got.
    ChargeUp { charge_type: Vec<ChargeUpType> },
    /// Fires in pulses while held; `frequency` is in thousandths of a full charge.
    WhileCharging { frequency: u64 },
}

impl CastType {
    pub fn cast_while_charging(self) -> (r: bool)
        ensures
            r == (self is WhileCharging),
    {
        match self {
            CastType::WhileCharging { .. } => true,
            _ => false,
        }
    }

    pub fn is_charge_up(self) -> (r: bool)
        ensures
            r == (self is ChargeUp),
    {
        match self {
            CastType::ChargeUp { .. } => true,
            _ => false,
        }
    }
}

impl Default for CastType {
    fn default() -> (r: CastType)
        ensures
            r is EndOfCharge,
    {
        CastType::EndOfCharge
    }
}

/// Whether a cast of this type scales `axis` by its charge ratio.
pub open spec fn scales(cast_type: CastType, axis: ChargeUpType) -> bool {
    match cast_type {
        CastType::ChargeUp { charge_type } => charge_type@.contains(axis),
        _ => false,
    }
}

/// The factor, in thousandths, that a cast of this type with charge ratio
/// `ratio` applies to `axis`: the ratio, at most a full charge, on a scaled
/// axis, and one otherwise.
pub open spec fn axis_factor(cast_type: CastType, axis: ChargeUpType, ratio: int) -> int {
    if scales(cast_type, axis) {
        if ratio > RATIO_SCALE {
            RATIO_SCALE as int
        } else {
            ratio
        }
    } else {
        RATIO_SCALE as int
    }
}

/// The factor that a cast of type `cast_type` with charge ratio `ratio`
/// applies to `axis`.
pub fn factor_for(cast_type: &CastType, axis: ChargeUpType, ratio: u64) -> (r: u64)
    ensures
        r == axis_factor(*cast_type, axis, ratio as int),
        r <= RATIO_SCALE,
{
    match cast_type {
        CastType::ChargeUp { charge_type } => {
            let mut i: usize = 0;
            while i < charge_type.len()
                invariant
                    i <= charge_type@.len(),
                    *cast_type is ChargeUp,
                    cast_type->charge_type == *charge_type,
                    forall|j: int| 0 <= j < i ==> charge_type@[j] != axis,
                decreases charge_type@.len() - i,
            {
                if charge_type[i] == axis {
                    proof {
                        assert(charge_type@[i as int] == axis);
                        assert(charge_type@.contains(axis));
                    }
                    return if ratio > RATIO_SCALE {
                        RATIO_SCALE
                    } else {
                        ratio
                    };
                }
                i = i + 1;
            }
            RATIO_SCALE
        },
        _ => RATIO_SCALE,
    }
}

/// A spell definition, loaded once and shared by every instance.
///
/// Times are in microseconds, energy in thousandths of a unit, the range in
/// thousandths of a pixel; `pattern` holds the turn of each instance that one
/// cast fans out into.
#[derive(Clone, Debug)]
pub struct Spell {
    pub id: String,
    pub name: String,
    pub cast_name: String,
    pub element_type: Vec<Element>,
    pub energy_cost: u64,
    pub spell_type: SpellType,
    pub cast_type: CastType,
    pub cooldown_time: u64,
    pub charge_time: u64,
    pub cast_snd: String,
    pub charge_snd: String,
    pub spell_range: u64,
    pub pattern: Vec<Turn>,
}

/// Per-slot casting state of an equipped spell; `spell` is the index of its
/// definition in the spell book.
#[derive(Clone, Copy, Debug, PartialEq, Eq, Structural)]
pub struct SpellInstance {
    pub charged_time: u64,
    pub cooldown_time_left: u64,
    pub ratio: u64,
    pub being_charged: bool,
    pub spell: usize,
}

/// What a successful cast asks the world to create.
#[derive(Clone, Copy, Debug, PartialEq, Eq, Structural)]
pub enum ObjMaker {
    Explosion(ExplosionMaker),
    Projectile(ProjectileMaker),
}

/// A spell definition as written in a configuration table.
#[derive(Clone, Debug)]
pub struct SpellTemplate {
    pub name: String,
    pub cast_name: String,
    pub element_type: Vec<Element>,
    pub energy_cost: u64,
    pub spell_type: SpellType,
    pub cast_type: CastType,
    pub spell_range: u64,
    pub cooldown_time: u64,
    pub charge_time: u64,
    pub cast_snd: String,
    pub charge_snd: String,
    pub pattern: Vec<Turn>,
}

/// The charge time of a template that gives none: a quarter second.
pub fn def_charge_time() -> (r: u64)
    ensures
        r == 250_000,
{
    250_000
}

/// The charge sound of a template that names none.
pub fn def_charge() -> (r: String)
    ensures
        r@ == "ding"@,
{
    "ding".to_string()
}

/// The range of a template that gives none: 144 pixels.
pub fn def_range() -> (r: u64)
    ensures
        r == 144_000,
{
    144_000
}

impl SpellTemplate {
    /// The definition with key `id`.
    pub fn build(self, id: String) -> (r: Spell)
        ensures
            r.id == id,
            r.name == self.name,
            r.cast_name == self.cast_name,
            r.element_type == self.element_type,
            r.energy_cost == self.energy_cost,
            r.spell_type == self.spell_type,
            r.cast_type == self.cast_type,
            r.spell_range == self.spell_range,
            r.cooldown_time == self.cooldown_time,
            r.charge_time == self.charge_time,
            r.cast_snd == self.cast_snd,
            r.charge_snd == self.charge_snd,
            r.pattern == self.pattern,
    {
        let SpellTemplate {
            name,
            cast_name,
            element_type,
            energy_cost,
            spell_type,
            cast_type,
            spell_range,
            cooldown_time,
            charge_time,
            cast_snd,
            charge_snd,
            pattern,
        } = self;
        Spell {
            id,
            name,
            cast_name,
            element_type,
            energy_cost,
            spell_type,
            cast_type,
            cooldown_time,
            charge_time,
            cast_snd,
            charge_snd,
            spell_range,
            pattern,
        }
    }
}

impl Spell {
    /// Every turn of the pattern lies within one unit and the range is
    /// bounded.
    pub open spec fn wf(&self) -> bool {
        &&& self.spell_range <= crate::geom::REACH_LIMIT
        &&& forall|k: int| 0 <= k < self.pattern@.len() ==> (#[trigger] self.pattern@[k]).wf()
    }

    pub fn is_wf(&self) -> (r: bool)
        ensures
            r == self.wf(),
    {
        if self.spell_range > crate::geom::REACH_LIMIT as u64 {
            return false;
        }
        let mut k: usize = 0;
        while k < self.pattern.len()
            invariant
                k <= self.pattern@.len(),
                forall|m: int| 0 <= m < k ==> (#[trigger] self.pattern@[m]).wf(),
            decreases self.pattern@.len() - k,
        {
            if !self.pattern[k].is_wf() {
                return false;
            }
            k = k + 1;
        }
        true
    }

    /// A fresh, idle instance of this spell, which has index `id` in the book.
    pub fn make_instance(&self, id: usize) -> (r: SpellInstance)
        ensures
            r == (SpellInstance {
                charged_time: 0,
                cooldown_time_left: 0,
                ratio: RATIO_SCALE,
                being_charged: false,
                spell: id,
            }),
    {
        SpellInstance {
            charged_time: 0,
            cooldown_time_left: 0,
            ratio: RATIO_SCALE,
            being_charged: false,
            spell: id,
        }
    }
}

/// The instance after one tick: charging advances while held and resets at
/// full charge, and the cooldown counts down to zero.
pub open spec fn ticked(s: SpellInstance, charge_time: int) -> SpellInstance {
    let (charged, held) = if s.charged_time + DELTA >= charge_time {
        (0, false)
    } else if s.being_charged {
        (s.charged_time + DELTA, true)
    } else {
        (0, false)
    };
    SpellInstance {
        charged_time: charged as u64,
        being_charged: held,
        cooldown_time_left: if s.cooldown_time_left > DELTA {
            (s.cooldown_time_left - DELTA) as u64
        } else {
            0
        },
        ..s
    }
}

/// Charge reached, in thousandths of the charge time (full when there is
/// no charge time).
pub open spec fn charge_ratio(charged_time: int, charge_time: int) -> int {
    if charge_time == 0 {
        RATIO_SCALE as int
    } else {
        charged_time * (RATIO_SCALE as int) / charge_time
    }
}

/// Whether a while-charging spell pulses at this point of its charge.
pub open spec fn pulses(charged_time: int, charge_time: int, frequency: int) -> bool {
    charge_time == 0 || frequency == 0 || ((charged_time + PULSE_LEAD) * (RATIO_SCALE as int)
        / charge_time) % frequency <= PULSE_TOLERANCE
}

/// Whether the cast fires, given its rules and how far it is charged.
pub open spec fn fires(cast_type: CastType, charged_time: int, charge_time: int) -> bool {
    match cast_type {
        CastType::EndOfCharge => charge_time - charged_time <= DELTA,
        CastType::ChargeUp { .. } => true,
        CastType::WhileCharging { frequency } => pulses(
            charged_time,
            charge_time,
            frequency as int,
        ),
    }
}

/// The spawn request of a cast that fires.
pub open spec fn maker_of(spell_type: SpellType, id: usize, ratio: u64) -> ObjMaker {
    match spell_type {
        SpellType::Explosion => ObjMaker::Explosion(ExplosionMaker(id, ratio)),
        SpellType::Projectile => ObjMaker::Projectile(ProjectileMaker(id, ratio)),
    }
}

/// What a cast of instance `s` of `spell` asks for, and the instance after it.
pub open spec fn cast_result(s: SpellInstance, spell: Spell) -> (Option<ObjMaker>, SpellInstance) {
    if s.cooldown_time_left > 0 {
        (None, s)
    } else {
        let ratio = if spell.cast_type is ChargeUp {
            charge_ratio(s.charged_time as int, spell.charge_time as int) as u64
        } else {
            s.ratio
        };
        let recorded = SpellInstance { ratio, ..s };
        if fires(spell.cast_type, s.charged_time as int, spell.charge_time as int) {
            (
                Some(maker_of(spell.spell_type, s.spell, ratio)),
                SpellInstance { cooldown_time_left: spell.cooldown_time, ..recorded },
            )
        } else {
            (None, recorded)
        }
    }
}

impl SpellInstance {
    /// Advances charge and cooldown by one tick; `spell` is this instance's
    /// definition.
    pub fn update(&mut self, spell: &Spell)
        ensures
            *final(self) == ticked(*old(self), spell.charge_time as int),
    {
        if self.charged_time as u128 + DELTA as u128 >= spell.charge_time as u128 {
            self.being_charged = false;
            self.charged_time = 0;
        } else if self.being_charged {
            self.charged_time = self.charged_time + DELTA;
        } else {
            self.charged_time = 0;
        }
        if self.cooldown_time_left > DELTA {
            self.cooldown_time_left = self.cooldown_time_left - DELTA;
        } else {
            self.cooldown_time_left = 0;
        }
    }

    /// Releases the spell. While its cooldown runs nothing happens. Otherwise
    /// a charge-up cast first records its charge ratio; then, if the cast type
    /// lets it fire, the cooldown starts and the spawn is asked for.
    pub fn cast(&mut self, spell: &Spell) -> (r: Option<ObjMaker>)
        ensures
            (r, *final(self)) == cast_result(*old(self), *spell),
    {
        if self.cooldown_time_left > 0 {
            return None;
        }
        match &spell.cast_type {
            CastType::EndOfCharge => {
                if spell.charge_time > self.charged_time && spell.charge_time - self.charged_time
                    > DELTA {
                    return None;
                }
            },
            CastType::ChargeUp { .. } => {
                if spell.charge_time == 0 {
                    self.ratio = RATIO_SCALE;
                } else {
                    proof {
                        assert(self.charged_time as int * 1000 / spell.charge_time as int
                            <= self.charged_time as int * 1000) by (nonlinear_arith)
                            requires spell.charge_time > 0, self.charged_time >= 0;
                    }
                    self.ratio = (self.charged_time as u128 * RATIO_SCALE as u128
                        / spell.charge_time as u128) as u64;
                }
            },
            CastType::WhileCharging { frequency } => {
                if spell.charge_time != 0 && *frequency != 0 {
                    let progress: u128 = (self.charged_time as u128 + PULSE_LEAD as u128)
                        * RATIO_SCALE as u128 / spell.charge_time as u128;
                    if progress % (*frequency as u128) > PULSE_TOLERANCE as u128 {
                        return None;
                    }
                }
            },
        }
        self.cooldown_time_left = spell.cooldown_time;
        match spell.spell_type {
            SpellType::Explosion => Some(ObjMaker::Explosion(ExplosionMaker(self.spell, self.ratio))),
            SpellType::Projectile => Some(
                ObjMaker::Projectile(ProjectileMaker(self.spell, self.ratio)),
            ),
        }
    }
}

} // verus!
