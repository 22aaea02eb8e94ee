//! A verified movement core for a two-dimensional, grid-based programming
//! language: a program is a rectangular (possibly ragged) grid of cells, and
//! an execution cursor walks the grid following a road/bounce priority policy.
//!
//! The crate provides the grid abstraction with bounds-checked neighbor
//! lookup, the four-way direction algebra, the start-cell locator, and the
//! movement selector that picks the next cell to visit.

pub mod direction;
pub mod grid;
pub mod selector;
pub mod vm;

pub use direction::Direction;
pub use grid::Instruction;
pub use grid::Matrix;
pub use grid::MatrixPoint;
pub use grid::Pixel;
pub use vm::VM;
