//! Conway's Game of Life on a bounded grid, with a pointer that re-seeds the
//! cells under it while held.

pub mod cell;
mod coin;
pub mod field;
pub mod pointer;
pub mod rules;

pub use cell::Cell;
pub use field::{Field, FieldError};
pub use pointer::{Pointer, CELL_PIXELS, REACH_PIXELS};
pub use rules::next_state;
