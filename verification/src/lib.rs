//! A grid snake simulation with machine-checked contracts.

pub mod food;
pub mod game;
pub mod geometry;
pub mod input;
pub mod render;
pub mod snake;
