//! Conway's Game of Life on a toroidal grid, with a per-generation report of
//! which cells changed.

pub mod cell;
pub mod rules;
pub mod universe;
pub mod seed;
