//! Simulation core of a grid-based snake game.
//!
//! The library owns the authoritative game state: the snake's ordered body
//! segments, the head's facing, the live food cells, and the cell most
//! recently vacated by the tail. It advances that state one movement tick at
//! a time, detecting wall and self collisions and applying growth, and fully
//! resets the world on game over. Rendering, windowing and input polling are
//! left to the surrounding application.

pub mod direction;
pub mod grid;
pub mod spawn;
pub mod world;
