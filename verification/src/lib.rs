//! A snake simulation on a toroidal grid.

pub mod food;
pub mod game;
pub mod grid;
pub mod power_up;
pub mod random;
pub mod snake;
pub mod text;
