//! Conway's Game of Life on a fixed-size toroidal grid.
//!
//! [`World`] owns one generation of cells in row-major order. [`World::tick`]
//! replaces it by the next generation and [`World::toggle_cell`] flips a
//! single cell. Every operation is specified against [`grid::Grid`], the
//! mathematical model of a generation.

mod arith;
pub mod cell;
pub mod grid;
pub mod laws;
pub mod world;

pub use cell::Cell;
pub use world::World;
