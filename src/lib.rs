//! A snake that grows along a three-dimensional grid of cubes, drawn with an
//! oblique projection: grid cells, the exact screen geometry of the cubes,
//! the draw commands of a frame and the game's state machine.

pub mod geometry;
pub mod screen;
pub mod cube;
pub mod food;
pub mod input;
pub mod game;
