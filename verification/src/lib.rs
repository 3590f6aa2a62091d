//! Simulation core of a grid-based snake game.
//!
//! The game advances in discrete ticks on a toroidal grid. This crate holds the
//! rules only: coordinate arithmetic with wraparound, the snake's trail of
//! segments and its growth rule, the two-slot buffer of direction requests,
//! and the resolution of food and self contact. Drawing, sound, key events and
//! the clock belong to the host.

pub mod direction;
pub mod food;
pub mod game;
pub mod grid;
pub mod rng;
pub mod snake;
