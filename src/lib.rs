//! Combat simulation core of a top-down spell-casting game: health and
//! energy pools, spell slots and casting, projectiles, explosions and enemy
//! perception, all on integer fixed-point quantities.
pub mod commands;
pub mod enemy;
pub mod energy;
pub mod explosion;
pub mod geom;
pub mod health;
pub mod player;
pub mod projectile;
pub mod registry;
pub mod spell;
pub mod time;
pub mod world;
