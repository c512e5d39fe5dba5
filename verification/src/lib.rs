//! Simulation core of a small arcade game: a crab at the bottom of the
//! field slides left and right to dodge bugs that fall from the top.
//!
//! Everything here is integer arithmetic. Lengths are counted in
//! [`units::UNITS_PER_PIXEL`]-ths of a pixel and time in microseconds, chosen
//! so that every speed of the game moves a whole number of length units per
//! microsecond and no step of the simulation ever rounds a position.
//!
//! A frame is one call of [`world::World::frame`]: it moves the player and the
//! bugs, lets the spawn scheduler add a bug, resolves collisions, derives the
//! texts to show and finally handles a restart request.

pub mod units;
pub mod geometry;
pub mod world;
pub mod collision;
pub mod scheduler;
pub mod spawn;
pub mod movement;
pub mod round;
pub mod hud;
pub mod frame;
