//! Escape-time fractals on a pixel grid.
//!
//! The crate holds the discrete half of a fractal viewer: the loop that counts
//! the iterations of an orbit, the grid of cells and its recomputation, and the
//! session that key presses drive. The arithmetic on plane coordinates belongs
//! to the caller, who hands it in as closures.

pub mod app;
pub mod fractal;
pub mod grid;
pub mod input;
pub mod render;
