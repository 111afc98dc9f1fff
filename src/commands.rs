use vstd::prelude::*;

use crate::energy::Energy;
use crate::health::Health;
use crate::spell::{element_named, lower_of, same_text, Element};
use crate::player::Player;
use crate::world::World;

verus! {

/// Why a console command failed.
#[derive(Clone, Copy, Debug, PartialEq, Eq, Structural)]
pub enum CommandError {
    /// No level is being played.
    NoWorld,
    /// An argument is missing or malformed.
    InvalidArg,
    /// No element has the given name.
    NoSuchElement,
    /// No level has the given number.
    NoSuchLevel,
    /// No campaign is being played.
    NoCampaign,
}

/// A console command that acts on the level being played.
#[derive(Clone, Copy, Debug, PartialEq, Eq, Structural)]
pub enum WorldCommand {
    ClearIntels,
    FullArmour,
    FullEnergy,
    God,
    GodEnergy,
    GodArmour,
    Elem,
}

/// The level command a console word names, with its short forms.
pub open spec fn command_named(s: Seq<char>) -> Option<WorldCommand> {
    if s == "pi"@ || s == "intels"@ {
        Some(WorldCommand::ClearIntels)
    } else if s == "fa"@ || s == "fullarmour"@ {
        Some(WorldCommand::FullArmour)
    } else if s == "fe"@ || s == "fullenergy"@ {
        Some(WorldCommand::FullEnergy)
    } else if s == "god"@ {
        Some(WorldCommand::God)
    } else if s == "godenergy"@ || s == "ge"@ {
        Some(WorldCommand::GodEnergy)
    } else if s == "godarmour"@ || s == "ga"@ {
        Some(WorldCommand::GodArmour)
    } else if s == "elem"@ {
        Some(WorldCommand::Elem)
    } else {
        None
    }
}

/// The level command that the console word `name` names.
pub fn parse_world_command(name: &String) -> (r: Option<WorldCommand>)
    ensures
        r == command_named(name@),
{
    if same_text(name, "pi") || same_text(name, "intels") {
        Some(WorldCommand::ClearIntels)
    } else if same_text(name, "fa") || same_text(name, "fullarmour") {
        Some(WorldCommand::FullArmour)
    } else if same_text(name, "fe") || same_text(name, "fullenergy") {
        Some(WorldCommand::FullEnergy)
    } else if same_text(name, "god") {
        Some(WorldCommand::God)
    } else if same_text(name, "godenergy") || same_text(name, "ge") {
        Some(WorldCommand::GodEnergy)
    } else if same_text(name, "godarmour") || same_text(name, "ga") {
        Some(WorldCommand::GodArmour)
    } else if same_text(name, "elem") {
        Some(WorldCommand::Elem)
    } else {
        None
    }
}

/// Whether `after` is `w` after level command `c` with words `args`, which
/// reported `r`.
pub open spec fn command_done(
    c: WorldCommand,
    args: Seq<String>,
    w: World,
    after: World,
    r: Result<bool, CommandError>,
) -> bool {
    let h = w.player.health;
    let en = w.player.energy;
    match c {
        WorldCommand::ClearIntels => r == Ok::<bool, CommandError>(true) && after.intels@.len() == 0
            && after == (World { intels: after.intels, ..w }),
        WorldCommand::FullArmour => r == Ok::<bool, CommandError>(true) && after == (World {
            player: Player { health: Health { hp: 100, armour: 100, ..h }, ..w.player },
            ..w
        }),
        WorldCommand::FullEnergy => r == Ok::<bool, CommandError>(true) && after == (World {
            player: Player { energy: Energy { cur_energy: en.max_energy, ..en }, ..w.player },
            ..w
        }),
        WorldCommand::God => r == Ok::<bool, CommandError>(true) && after == (World {
            player: Player {
                health: if !h.unlimited_hp {
                    Health { unlimited_hp: true, ..h }
                } else {
                    Health { unlimited_hp: false, hp: 100, ..h }
                },
                ..w.player
            },
            ..w
        }),
        WorldCommand::GodArmour => r == Ok::<bool, CommandError>(true) && after == (World {
            player: Player {
                health: if !h.unlimited_armour {
                    Health { unlimited_armour: true, ..h }
                } else {
                    Health { unlimited_armour: false, armour: 5, ..h }
                },
                ..w.player
            },
            ..w
        }),
        WorldCommand::GodEnergy => r == Ok::<bool, CommandError>(true) && after == (World {
            player: Player {
                energy: if !en.unlimited {
                    Energy { unlimited: true, ..en }
                } else {
                    Energy { unlimited: false, cur_energy: 100_000, max_energy: 100_000, ..en }
                },
                ..w.player
            },
            ..w
        }),
        WorldCommand::Elem => if args.len() < 2 {
            r == Err::<bool, CommandError>(CommandError::InvalidArg) && after == w
        } else {
            match element_named(lower_of(args[1]@)) {
                None => r == Err::<bool, CommandError>(CommandError::NoSuchElement) && after == w,
                Some(e) => {
                    let slots = w.player.spell;
                    r == Ok::<bool, CommandError>(true) && after == (World {
                        player: Player {
                            spell: slots.with_slot(slots.insert_target(), Some(e)),
                            ..w.player
                        },
                        ..w
                    })
                },
            }
        },
    }
}

impl World {
    /// Runs the level command whose words are `args` (the command's name
    /// first). Returns `Ok(false)`, changing nothing, when the words name no
    /// level command.
    pub fn run_world_command(&mut self, args: &Vec<String>) -> (r: Result<bool, CommandError>)
        ensures
            args@.len() == 0 ==> r == Ok::<bool, CommandError>(false) && *final(self) == *old(self),
            args@.len() > 0 && command_named(args@[0]@) is None ==> r == Ok::<bool, CommandError>(false)
                && *final(self) == *old(self),
            args@.len() > 0 && command_named(args@[0]@) is Some ==> command_done(
                command_named(args@[0]@).unwrap(),
                args@,
                *old(self),
                *final(self),
                r,
            ),
    {
        if args.len() == 0 {
            return Ok(false);
        }
        match parse_world_command(&args[0]) {
            None => Ok(false),
            Some(WorldCommand::ClearIntels) => {
                self.clear_intels();
                Ok(true)
            },
            Some(WorldCommand::FullArmour) => {
                self.full_armour();
                Ok(true)
            },
            Some(WorldCommand::FullEnergy) => {
                self.full_energy();
                Ok(true)
            },
            Some(WorldCommand::God) => {
                let _ = self.toggle_god();
                Ok(true)
            },
            Some(WorldCommand::GodEnergy) => {
                let _ = self.toggle_god_energy();
                Ok(true)
            },
            Some(WorldCommand::GodArmour) => {
                let _ = self.toggle_god_armour();
                Ok(true)
            },
            Some(WorldCommand::Elem) => {
                let arg = if args.len() >= 2 {
                    Some(&args[1])
                } else {
                    None
                };
                match self.give_element(arg) {
                    Ok(_) => Ok(true),
                    Err(e) => Err(e),
                }
            },
        }
    }

    /// Takes every intel marker at once.
    pub fn clear_intels(&mut self)
        ensures
            final(self).intels@.len() == 0,
            *final(self) == (World { intels: final(self).intels, ..*old(self) }),
    {
        self.intels.clear();
    }

    /// Restores full hit points and armour.
    pub fn full_armour(&mut self)
        ensures
            final(self).player.health == (Health { hp: 100, armour: 100, ..old(self).player.health }),
            final(self).player == (crate::player::Player { health: final(self).player.health, ..old(self).player }),
            *final(self) == (World { player: final(self).player, ..*old(self) }),
    {
        self.player.health.hp = 100;
        self.player.health.armour = 100;
    }

    /// Fills the player's energy to its maximum.
    pub fn full_energy(&mut self)
        ensures
            final(self).player.energy == (Energy { cur_energy: old(self).player.energy.max_energy, ..old(self).player.energy }),
            final(self).player == (crate::player::Player { energy: final(self).player.energy, ..old(self).player }),
            *final(self) == (World { player: final(self).player, ..*old(self) }),
    {
        self.player.energy.cur_energy = self.player.energy.max_energy;
    }

    /// Switches unlimited hit points on, or off again with 100 hit points;
    /// returns whether they are now on.
    pub fn toggle_god(&mut self) -> (r: bool)
        ensures
            r == !old(self).player.health.unlimited_hp,
            final(self).player.health == if r {
                Health { unlimited_hp: true, ..old(self).player.health }
            } else {
                Health { unlimited_hp: false, hp: 100, ..old(self).player.health }
            },
            *final(self) == (World {
                player: crate::player::Player { health: final(self).player.health, ..old(self).player },
                ..*old(self)
            }),
    {
        if !self.player.health.unlimited_hp {
            self.player.health.unlimited_hp = true;
            true
        } else {
            self.player.health.unlimited_hp = false;
            self.player.health.hp = 100;
            false
        }
    }

    /// Switches unlimited armour on, or off again with 5 armour; returns
    /// whether it is now on.
    pub fn toggle_god_armour(&mut self) -> (r: bool)
        ensures
            r == !old(self).player.health.unlimited_armour,
            final(self).player.health == if r {
                Health { unlimited_armour: true, ..old(self).player.health }
            } else {
                Health { unlimited_armour: false, armour: 5, ..old(self).player.health }
            },
            *final(self) == (World {
                player: crate::player::Player { health: final(self).player.health, ..old(self).player },
                ..*old(self)
            }),
    {
        if !self.player.health.unlimited_armour {
            self.player.health.unlimited_armour = true;
            true
        } else {
            self.player.health.unlimited_armour = false;
            self.player.health.armour = 5;
            false
        }
    }

    /// Switches unlimited energy on, or off again with a full pool of 100
    /// units; returns whether it is now on.
    pub fn toggle_god_energy(&mut self) -> (r: bool)
        ensures
            r == !old(self).player.energy.unlimited,
            final(self).player.energy == if r {
                Energy { unlimited: true, ..old(self).player.energy }
            } else {
                Energy { unlimited: false, cur_energy: 100_000, max_energy: 100_000, ..old(self).player.energy }
            },
            *final(self) == (World {
                player: crate::player::Player { energy: final(self).player.energy, ..old(self).player },
                ..*old(self)
            }),
    {
        if !self.player.energy.unlimited {
            self.player.energy.unlimited = true;
            true
        } else {
            self.player.energy.unlimited = false;
            self.player.energy.cur_energy = 100_000;
            self.player.energy.max_energy = 100_000;
            false
        }
    }

    /// Gives the player the element named by the command's argument (in any
    /// case), where a new element goes; returns the element it replaced.
    pub fn give_element(&mut self, arg: Option<&String>) -> (r: Result<Option<Element>, CommandError>)
        ensures
            arg is None ==> r == Err::<Option<Element>, CommandError>(CommandError::InvalidArg) && *final(self) == *old(self),
            arg matches Some(a) ==> match element_named(lower_of(a@)) {
                None => r == Err::<Option<Element>, CommandError>(CommandError::NoSuchElement) && *final(self) == *old(self),
                Some(e) => {
                    let slots = old(self).player.spell;
                    &&& r == Ok::<Option<Element>, CommandError>(slots.slot_at(slots.insert_target()))
                    &&& final(self).player.spell == slots.with_slot(slots.insert_target(), Some(e))
                    &&& *final(self) == (World {
                        player: crate::player::Player { spell: final(self).player.spell, ..old(self).player },
                        ..*old(self)
                    })
                },
            },
    {
        match arg {
            None => Err(CommandError::InvalidArg),
            Some(a) => match Element::get_from_str(a.as_str()) {
                None => Err(CommandError::NoSuchElement),
                Some(e) => Ok(self.player.spell.add_element(e)),
            },
        }
    }
}

} // verus!
