use vstd::prelude::*;

verus! {

/// Side of a cell on screen, in pixels.
pub const CELL_PIXELS: u64 = 8;

/// A held pointer re-seeds the cells whose centres lie closer than this, in
/// pixels.
pub const REACH_PIXELS: u64 = 32;

/// The pointer as read once per generation: its position in screen pixels and
/// whether its primary button is held.
#[derive(Clone, Copy, Debug, PartialEq, Eq, Structural)]
pub struct Pointer {
    pub x: i64,
    pub y: i64,
    pub held: bool,
}

/// Screen coordinate of the centre of the cell in column or row `i`.
pub open spec fn cell_center(i: int) -> int {
    i * CELL_PIXELS + CELL_PIXELS / 2
}

/// Whether the centre of cell `(x, y)` lies within the pointer's reach,
/// that is at a Euclidean distance below `REACH_PIXELS`.
pub open spec fn within_reach(p: Pointer, x: int, y: int) -> bool {
    let dx = cell_center(x) - p.x;
    let dy = cell_center(y) - p.y;
    dx * dx + dy * dy < REACH_PIXELS * REACH_PIXELS
}

/// Whether the pointer re-seeds cell `(x, y)` in this generation.
pub open spec fn overrides(p: Pointer, x: int, y: int) -> bool {
    p.held && within_reach(p, x, y)
}

impl Pointer {
    /// A pointer at `(x, y)`, held or not.
    pub fn new(x: i64, y: i64, held: bool) -> (r: Pointer)
        ensures
            r == (Pointer { x, y, held }),
    {
        Pointer { x, y, held }
    }

    /// Whether this pointer re-seeds the cell in column `x` and row `y`: the
    /// button is held and the cell's centre is within reach.
    pub fn reaches(&self, x: usize, y: usize) -> (r: bool)
        ensures
            r == overrides(*self, x as int, y as int),
    {
        if !self.held {
            return false;
        }
        let size: i128 = CELL_PIXELS as i128;
        let xs: i128 = x as i128;
        let ys: i128 = y as i128;
        assert(0 <= xs * size <= u64::MAX * 8 && 0 <= ys * size <= u64::MAX * 8) by (nonlinear_arith)
            requires
                0 <= xs <= u64::MAX,
                0 <= ys <= u64::MAX,
                size == 8,
        ;
        let dx: i128 = xs * size + size / 2 - self.x as i128;
        let dy: i128 = ys * size + size / 2 - self.y as i128;
        let r: i128 = REACH_PIXELS as i128;
        if dx <= -r || dx >= r || dy <= -r || dy >= r {
            assert(dx * dx >= r * r || dy * dy >= r * r) by (nonlinear_arith)
                requires
                    dx <= -r || dx >= r || dy <= -r || dy >= r,
                    r == 32,
            ;
            assert(dx * dx >= 0 && dy * dy >= 0) by (nonlinear_arith);
            return false;
        }
        assert(0 <= dx * dx < r * r && 0 <= dy * dy < r * r) by (nonlinear_arith)
            requires
                -r < dx < r,
                -r < dy < r,
                r == 32,
        ;
        dx * dx + dy * dy < r * r
    }
}

} // verus!
