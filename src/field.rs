use rand::rngs::StdRng;
use vstd::prelude::*;

use crate::cell::Cell;
use crate::coin::flip_coin;
use crate::pointer::{overrides, Pointer};
use crate::rules::{grid_wf, life_rule, life_step, live, neighbor_count, next_state, Grid};

verus! {

/// Why a field could not be built.
#[derive(Clone, Copy, Debug, PartialEq, Eq, Structural)]
pub enum FieldError {
    /// The width or the height asked for was zero.
    EmptyDimension,
}

/// A fixed-size grid of cells, stored column by column: `cells[x][y]` is the
/// cell in column `x` and row `y`.
pub struct Field {
    cells: Vec<Vec<Cell>>,
}

/// A grid of `width` columns of `height` dead cells.
pub open spec fn dead_grid(width: nat, height: nat) -> Grid {
    Seq::new(width, |x: int| Seq::new(height, |y: int| false))
}

impl View for Field {
    type V = Grid;

    closed spec fn view(&self) -> Grid {
        Seq::new(self.cells@.len(), |x: int| Seq::new(self.cells@[x]@.len(), |y: int| self.cells@[x]@[y].alive))
    }
}

impl Field {
    /// At least one column and one row, every column of the same height.
    pub open spec fn wf(&self) -> bool {
        grid_wf(self@)
    }

    /// Number of columns.
    pub open spec fn width_spec(&self) -> nat {
        self@.len()
    }

    /// Number of rows.
    pub open spec fn height_spec(&self) -> nat {
        self@[0].len()
    }

    /// Whether both fields have the same number of columns and of rows.
    pub open spec fn same_shape(&self, other: &Field) -> bool {
        self.width_spec() == other.width_spec() && self.height_spec() == other.height_spec()
    }

    /// A column of `height` cells: dead without a random source, each alive
    /// on a fair coin flip with one.
    fn column(height: usize, rng: &mut Option<&mut StdRng>) -> (r: Vec<Cell>)
        ensures
            r@.len() == height,
            final(rng).is_none() == old(rng).is_none(),
            old(rng).is_none() ==> forall|y: int| 0 <= y < height ==> !(#[trigger] r@[y]).alive,
    {
        let mut col: Vec<Cell> = Vec::with_capacity(height);
        let mut y: usize = 0;
        while y < height
            invariant
                y <= height,
                col@.len() == y,
                rng.is_none() == old(rng).is_none(),
                old(rng).is_none() ==> forall|j: int| 0 <= j < y ==> !(#[trigger] col@[j]).alive,
            decreases height - y,
        {
            let mut cell = Cell::new();
            match rng {
                Some(r) => cell.update(flip_coin(r)),
                None => {},
            }
            col.push(cell);
            y = y + 1;
        }
        col
    }

    /// `width` columns of `height` cells, seeded as `column` does.
    fn build(width: usize, height: usize, rng: &mut Option<&mut StdRng>) -> (r: Field)
        requires
            width > 0,
            height > 0,
        ensures
            r.wf(),
            r.width_spec() == width,
            r.height_spec() == height,
            old(rng).is_none() ==> r@ == dead_grid(width as nat, height as nat),
    {
        let mut cells: Vec<Vec<Cell>> = Vec::with_capacity(width);
        let mut x: usize = 0;
        while x < width
            invariant
                x <= width,
                cells@.len() == x,
                rng.is_none() == old(rng).is_none(),
                forall|i: int| 0 <= i < x ==> (#[trigger] cells@[i])@.len() == height,
                old(rng).is_none() ==> forall|i: int, j: int|
                    0 <= i < x && 0 <= j < height ==> !(#[trigger] cells@[i]@[j]).alive,
            decreases width - x,
        {
            let col = Field::column(height, rng);
            cells.push(col);
            x = x + 1;
        }
        let r = Field { cells };
        proof {
            if old(rng).is_none() {
                assert(r@ =~~= dead_grid(width as nat, height as nat));
            }
        }
        r
    }

    /// A field of `width` columns and `height` rows, every cell dead; an error
    /// when either dimension is zero.
    pub fn empty(width: usize, height: usize) -> (r: Result<Field, FieldError>)
        ensures
            r is Ok <==> (width > 0 && height > 0),
            r is Err ==> r == Err::<Field, FieldError>(FieldError::EmptyDimension),
            r matches Ok(f) ==> f.wf() && f@ == dead_grid(width as nat, height as nat),
    {
        if width == 0 || height == 0 {
            return Err(FieldError::EmptyDimension);
        }
        let mut none: Option<&mut StdRng> = None;
        Ok(Field::build(width, height, &mut none))
    }

    /// A field of `width` columns and `height` rows, each cell alive on its own
    /// fair coin flip drawn from `rng`; an error when either dimension is zero.
    pub fn new(width: usize, height: usize, rng: &mut StdRng) -> (r: Result<Field, FieldError>)
        ensures
            r is Ok <==> (width > 0 && height > 0),
            r is Err ==> r == Err::<Field, FieldError>(FieldError::EmptyDimension),
            r matches Ok(f) ==> f.wf() && f.width_spec() == width && f.height_spec() == height,
    {
        if width == 0 || height == 0 {
            return Err(FieldError::EmptyDimension);
        }
        let mut source: Option<&mut StdRng> = Some(rng);
        Ok(Field::build(width, height, &mut source))
    }

    /// Number of columns.
    pub fn width(&self) -> (r: usize)
        requires
            self.wf(),
        ensures
            r == self.width_spec(),
    {
        self.cells.len()
    }

    /// Number of rows.
    pub fn height(&self) -> (r: usize)
        requires
            self.wf(),
        ensures
            r == self.height_spec(),
    {
        self.cells[0].len()
    }

    /// Whether the cell in column `x` and row `y` is alive.
    pub fn is_alive(&self, x: usize, y: usize) -> (r: bool)
        requires
            self.wf(),
            x < self.width_spec(),
            y < self.height_spec(),
        ensures
            r == self@[x as int][y as int],
    {
        proof {
            self.lemma_cells();
        }
        self.cells[x][y].alive
    }

    /// How the view reads the stored cells.
    proof fn lemma_cells(&self)
        requires
            self.wf(),
        ensures
            self.cells@.len() == self.width_spec(),
            forall|x: int|
                0 <= x < self.width_spec() ==> (#[trigger] self.cells@[x])@.len() == self.height_spec(),
            forall|x: int, y: int|
                0 <= x < self.width_spec() && 0 <= y < self.height_spec() ==> (#[trigger] self.cells@[x]@[y]).alive
                    == self@[x][y],
    {
        assert forall|x: int| 0 <= x < self.width_spec() implies (#[trigger] self.cells@[x])@.len()
            == self.height_spec() by {
            assert(self@[x].len() == self@[0].len());
        }
    }

    /// 1 where column `x + dx`, row `y + dy` is on the field and alive, else 0.
    fn live_at(&self, x: usize, y: usize, dx: i8, dy: i8) -> (r: u8)
        requires
            self.wf(),
            x < self.width_spec(),
            y < self.height_spec(),
            -1 <= dx <= 1,
            -1 <= dy <= 1,
        ensures
            r == live(self@, x + dx, y + dy),
    {
        proof {
            self.lemma_cells();
        }
        let width = self.cells.len();
        let height = self.cells[x].len();
        if (dx < 0 && x == 0) || (dy < 0 && y == 0) {
            return 0;
        }
        let nx: usize = if dx < 0 { x - 1 } else if dx > 0 { x + 1 } else { x };
        let ny: usize = if dy < 0 { y - 1 } else if dy > 0 { y + 1 } else { y };
        if nx >= width || ny >= height {
            return 0;
        }
        if self.cells[nx][ny].alive {
            1
        } else {
            0
        }
    }

    /// The number of live cells among the eight around column `x`, row `y`;
    /// positions off the field are skipped, not wrapped around.
    pub fn count_live_neighbors(&self, x: usize, y: usize) -> (r: u8)
        requires
            self.wf(),
            x < self.width_spec(),
            y < self.height_spec(),
        ensures
            r == neighbor_count(self@, x as int, y as int),
            r <= 8,
    {
        self.live_at(x, y, -1, -1) + self.live_at(x, y, -1, 0) + self.live_at(x, y, -1, 1)
            + self.live_at(x, y, 0, -1) + self.live_at(x, y, 0, 1)
            + self.live_at(x, y, 1, -1) + self.live_at(x, y, 1, 0) + self.live_at(x, y, 1, 1)
    }

    /// The next state of the cell in column `x`, row `y` of this snapshot:
    /// `draw` where the pointer re-seeds the cell, else the rule of Life applied
    /// to the cell and its live neighbours.
    pub fn next_cell_state(&self, x: usize, y: usize, pointer: &Pointer, draw: bool) -> (r: bool)
        requires
            self.wf(),
            x < self.width_spec(),
            y < self.height_spec(),
        ensures
            r == if overrides(*pointer, x as int, y as int) {
                draw
            } else {
                life_rule(self@[x as int][y as int], neighbor_count(self@, x as int, y as int))
            },
    {
        if pointer.reaches(x, y) {
            draw
        } else {
            next_state(self.is_alive(x, y), self.count_live_neighbors(x, y))
        }
    }

    /// Sets the cell in column `x`, row `y` alive or dead.
    pub fn set_alive(&mut self, x: usize, y: usize, alive: bool)
        requires
            old(self).wf(),
            x < old(self).width_spec(),
            y < old(self).height_spec(),
        ensures
            final(self)@ == old(self)@.update(x as int, old(self)@[x as int].update(y as int, alive)),
            final(self).wf(),
    {
        proof {
            self.lemma_cells();
        }
        self.cells[x][y].update(alive);
        proof {
            assert(self@ =~~= old(self)@.update(x as int, old(self)@[x as int].update(y as int, alive)));
        }
    }

    /// A copy of the field, to read the current generation from while the
    /// next one is written.
    pub fn snapshot(&self) -> (r: Field)
        requires
            self.wf(),
        ensures
            r@ == self@,
            r.wf(),
    {
        proof {
            self.lemma_cells();
        }
        let width = self.cells.len();
        let mut cells: Vec<Vec<Cell>> = Vec::with_capacity(width);
        let mut x: usize = 0;
        while x < width
            invariant
                self.wf(),
                width == self.cells@.len(),
                x <= width,
                cells@.len() == x,
                forall|i: int| 0 <= i < x ==> (#[trigger] cells@[i])@ == self.cells@[i]@,
            decreases width - x,
        {
            let height = self.cells[x].len();
            let mut col: Vec<Cell> = Vec::with_capacity(height);
            let mut y: usize = 0;
            while y < height
                invariant
                    x < width,
                    width == self.cells@.len(),
                    height == self.cells@[x as int]@.len(),
                    y <= height,
                    col@ == self.cells@[x as int]@.subrange(0, y as int),
                decreases height - y,
            {
                col.push(self.cells[x][y]);
                y = y + 1;
                proof {
                    assert(col@ =~= self.cells@[x as int]@.subrange(0, y as int));
                }
            }
            proof {
                assert(col@ =~= self.cells@[x as int]@);
            }
            cells.push(col);
            x = x + 1;
        }
        let r = Field { cells };
        proof {
            assert(r@ =~~= self@);
        }
        r
    }

    /// Writes the generation that follows `snapshot` into this field, which
    /// has its shape. Every cell is computed from `snapshot` alone, never from a
    /// cell already written in this step. Where the pointer re-seeds a cell,
    /// the cell takes a fair coin flip from `rng` instead of the rule's result.
    pub fn step(&mut self, snapshot: &Field, rng: &mut StdRng, pointer: &Pointer)
        requires
            old(self).wf(),
            snapshot.wf(),
            old(self).same_shape(snapshot),
        ensures
            final(self).wf(),
            final(self).same_shape(snapshot),
            forall|x: int, y: int|
                0 <= x < snapshot.width_spec() && 0 <= y < snapshot.height_spec()
                    && !overrides(*pointer, x, y) ==> #[trigger] final(self)@[x][y] == life_step(
                    snapshot@,
                )[x][y],
            !pointer.held ==> final(self)@ == life_step(snapshot@),
    {
        proof {
            self.lemma_cells();
            snapshot.lemma_cells();
        }
        let width = self.cells.len();
        let height = self.cells[0].len();
        let ghost next = life_step(snapshot@);
        let mut x: usize = 0;
        while x < width
            invariant
                snapshot.wf(),
                width == snapshot.width_spec(),
                height == snapshot.height_spec(),
                next == life_step(snapshot@),
                x <= width,
                self.cells@.len() == width,
                forall|i: int| 0 <= i < width ==> (#[trigger] self.cells@[i])@.len() == height,
                forall|i: int, j: int|
                    0 <= i < x && 0 <= j < height && !overrides(*pointer, i, j)
                        ==> (#[trigger] self.cells@[i]@[j]).alive == next[i][j],
            decreases width - x,
        {
            let mut y: usize = 0;
            while y < height
                invariant
                    snapshot.wf(),
                    width == snapshot.width_spec(),
                    height == snapshot.height_spec(),
                    next == life_step(snapshot@),
                    x < width,
                    y <= height,
                    self.cells@.len() == width,
                    forall|i: int| 0 <= i < width ==> (#[trigger] self.cells@[i])@.len() == height,
                    forall|i: int, j: int|
                        ((0 <= i < x && 0 <= j < height) || (i == x && 0 <= j < y))
                            && !overrides(*pointer, i, j) ==> (#[trigger] self.cells@[i]@[j]).alive
                            == next[i][j],
                decreases height - y,
            {
                let draw = if pointer.reaches(x, y) {
                    flip_coin(rng)
                } else {
                    false
                };
                let alive = snapshot.next_cell_state(x, y, pointer, draw);
                self.cells[x][y].update(alive);
                y = y + 1;
            }
            x = x + 1;
        }
        proof {
            if !pointer.held {
                assert(self@ =~~= next);
            }
        }
    }

    /// Moves the field on by one generation: takes a snapshot of it, then
    /// steps from that snapshot.
    pub fn advance(&mut self, rng: &mut StdRng, pointer: &Pointer)
        requires
            old(self).wf(),
        ensures
            final(self).wf(),
            final(self).same_shape(old(self)),
            forall|x: int, y: int|
                0 <= x < old(self).width_spec() && 0 <= y < old(self).height_spec()
                    && !overrides(*pointer, x, y) ==> #[trigger] final(self)@[x][y] == life_step(
                    old(self)@,
                )[x][y],
            !pointer.held ==> final(self)@ == life_step(old(self)@),
    {
        let snapshot = self.snapshot();
        self.step(&snapshot, rng, pointer);
    }
}

} // verus!
