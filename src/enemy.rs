use vstd::prelude::*;

use crate::geom::Vec2;
use crate::player::Player;

verus! {

/// What an enemy knows of the player.
#[derive(Clone, Copy, Debug, PartialEq, Eq, Structural)]
pub enum Chaser {
    /// Knows nothing.
    Idle,
    /// Chasing the player's last seen position and velocity.
    LastKnown { pos: Vec2, vel: Vec2 },
    /// Hurt by something unseen: looks along `dir` without chasing.
    LookAround { dir: Vec2 },
}

impl Chaser {
    /// Whether the enemy is actively chasing.
    pub fn chasing(&self) -> (r: bool)
        ensures
            r == (*self is LastKnown),
    {
        match self {
            Chaser::LastKnown { .. } => true,
            _ => false,
        }
    }
}

impl Default for Chaser {
    fn default() -> (r: Chaser)
        ensures
            r == Chaser::Idle,
    {
        Chaser::Idle
    }
}

/// An enemy: a body like the player's and what it knows of the player.
#[derive(Clone, Copy, Debug)]
pub struct Enemy {
    pub pl: Player,
    pub behaviour: Chaser,
}

impl Enemy {
    pub fn new(pl: Player) -> (r: Enemy)
        ensures
            r.pl == pl,
            r.behaviour == Chaser::Idle,
    {
        Enemy { pl, behaviour: Chaser::Idle }
    }

    /// The perception step of a tick: when the enemy sees the player, it
    /// chases the player's current position and velocity, whatever it did
    /// before; otherwise it keeps its behaviour.
    pub fn perceive(&mut self, sees_player: bool, player_pos: Vec2, player_vel: Vec2)
        ensures
            final(self).pl == old(self).pl,
            final(self).behaviour == if sees_player {
                Chaser::LastKnown { pos: player_pos, vel: player_vel }
            } else {
                old(self).behaviour
            },
    {
        if sees_player {
            self.behaviour = Chaser::LastKnown { pos: player_pos, vel: player_vel };
        }
    }

    /// Reaction to a hit that came from direction `dir`: an enemy that is not
    /// chasing turns to look that way.
    pub fn alert(&mut self, dir: Vec2)
        ensures
            final(self).pl == old(self).pl,
            final(self).behaviour == if old(self).behaviour is LastKnown {
                old(self).behaviour
            } else {
                Chaser::LookAround { dir }
            },
    {
        if !self.behaviour.chasing() {
            self.behaviour = Chaser::LookAround { dir };
        }
    }
}

} // verus!
