//! The rules of a small lander game: how key presses and releases move the
//! pilot's controls, when the engine thrusts, how the screen wraps around,
//! which ship sprites are drawn, and where the mountain outline takes its
//! vertices from a row of terrain noise.

pub mod bounds;
pub mod input;
pub mod ship;
pub mod terrain;
