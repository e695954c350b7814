//! Simulation core of a personal website's arcade mini-game, plus the plain
//! data records that the site's pages carry around.
//!
//! The game is a Flappy-Bird-style side scroller: a bird falls under gravity,
//! a primary input (click or space) gives it an upward impulse, pipe pairs
//! scroll in from the right, and the run ends when the bird touches a pipe or
//! the ground. All positions, velocities and angles are held in fixed-point
//! integers so that every physics step is exact and free of overflow.

pub mod clock;
pub mod collision;
pub mod config;
pub mod entities;
pub mod models;
pub mod physics;
pub mod pipes;
pub mod render;
mod rng;
pub mod sim;
pub mod trace;
