use vstd::prelude::*;

verus! {

/// One square of the grid: alive or dead.
#[derive(Clone, Copy, Debug, PartialEq, Eq, Structural)]
pub struct Cell {
    pub alive: bool,
}

impl Cell {
    /// A dead cell.
    pub fn new() -> (r: Cell)
        ensures
            !r.alive,
    {
        Cell { alive: false }
    }

    /// Update Cell living state, setting it to `alive`.
    pub fn update(&mut self, alive: bool)
        ensures
            final(self).alive == alive,
    {
        self.alive = alive;
    }
}

} // verus!
