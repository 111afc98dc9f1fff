use vstd::prelude::*;

use crate::explosion::Explosion;
use crate::projectile::Projectile;
use crate::spell::Spell;

verus! {

/// The definitions of every spell, projectile and explosion, loaded once and
/// referred to by index.
#[derive(Clone, Debug)]
pub struct Registry {
    pub spells: Vec<Spell>,
    pub projectiles: Vec<Projectile>,
    pub explosions: Vec<Explosion>,
}

/// Whether `i` is the first projectile definition with key `name`.
pub open spec fn first_projectile(defs: Seq<Projectile>, name: Seq<char>, i: int) -> bool {
    &&& 0 <= i < defs.len()
    &&& defs[i].id@ == name
    &&& forall|j: int| 0 <= j < i ==> (#[trigger] defs[j]).id@ != name
}

/// Whether `i` is the first explosion definition with key `name`.
pub open spec fn first_explosion(defs: Seq<Explosion>, name: Seq<char>, i: int) -> bool {
    &&& 0 <= i < defs.len()
    &&& defs[i].id@ == name
    &&& forall|j: int| 0 <= j < i ==> (#[trigger] defs[j]).id@ != name
}

impl Registry {
    /// Every definition well formed.
    pub open spec fn wf(&self) -> bool {
        &&& forall|k: int| 0 <= k < self.spells@.len() ==> (#[trigger] self.spells@[k]).wf()
        &&& forall|k: int| 0 <= k < self.projectiles@.len() ==> (#[trigger] self.projectiles@[k]).wf()
        &&& forall|k: int| 0 <= k < self.explosions@.len() ==> (#[trigger] self.explosions@[k]).wf()
    }

    /// Whether every definition is well formed.
    pub fn is_wf(&self) -> (r: bool)
        ensures
            r == self.wf(),
    {
        let mut k: usize = 0;
        while k < self.spells.len()
            invariant
                k <= self.spells@.len(),
                forall|m: int| 0 <= m < k ==> (#[trigger] self.spells@[m]).wf(),
            decreases self.spells@.len() - k,
        {
            if !self.spells[k].is_wf() {
                return false;
            }
            k = k + 1;
        }
        let mut k: usize = 0;
        while k < self.projectiles.len()
            invariant
                k <= self.projectiles@.len(),
                forall|m: int| 0 <= m < k ==> (#[trigger] self.projectiles@[m]).wf(),
            decreases self.projectiles@.len() - k,
        {
            if !self.projectiles[k].is_wf() {
                return false;
            }
            k = k + 1;
        }
        let mut k: usize = 0;
        while k < self.explosions.len()
            invariant
                k <= self.explosions@.len(),
                forall|m: int| 0 <= m < k ==> (#[trigger] self.explosions@[m]).wf(),
            decreases self.explosions@.len() - k,
        {
            if !self.explosions[k].is_wf() {
                return false;
            }
            k = k + 1;
        }
        true
    }

    /// The index of the projectile definition with key `name`.
    pub fn find_projectile(&self, name: &String) -> (r: Option<usize>)
        ensures
            r matches Some(i) ==> first_projectile(self.projectiles@, name@, i as int),
            r is None ==> forall|j: int| 0 <= j < self.projectiles@.len() ==> (#[trigger] self.projectiles@[j]).id@ != name@,
    {
        let mut i: usize = 0;
        while i < self.projectiles.len()
            invariant
                i <= self.projectiles@.len(),
                forall|j: int| 0 <= j < i ==> (#[trigger] self.projectiles@[j]).id@ != name@,
            decreases self.projectiles@.len() - i,
        {
            if self.projectiles[i].id == *name {
                return Some(i);
            }
            i = i + 1;
        }
        None
    }

    /// The index of the explosion definition with key `name`.
    pub fn find_explosion(&self, name: &String) -> (r: Option<usize>)
        ensures
            r matches Some(i) ==> first_explosion(self.explosions@, name@, i as int),
            r is None ==> forall|j: int| 0 <= j < self.explosions@.len() ==> (#[trigger] self.explosions@[j]).id@ != name@,
    {
        let mut i: usize = 0;
        while i < self.explosions.len()
            invariant
                i <= self.explosions@.len(),
                forall|j: int| 0 <= j < i ==> (#[trigger] self.explosions@[j]).id@ != name@,
            decreases self.explosions@.len() - i,
        {
            if self.explosions[i].id == *name {
                return Some(i);
            }
            i = i + 1;
        }
        None
    }
}

} // verus!
