//! A snake game on a toroidal grid: the per-tick state transition, with
//! wraparound movement, collision detection, food relocation and obstacle
//! spawning.
use vstd::prelude::*;

pub mod grid;
pub mod random;
pub mod snake;

pub use grid::{Direction, Position};
pub use snake::Snake;
