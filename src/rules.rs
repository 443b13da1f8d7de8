use vstd::prelude::*;

verus! {

/// A grid as a mathematical value: `g[x][y]` is whether the cell in column `x`
/// and row `y` is alive.
pub type Grid = Seq<Seq<bool>>;

/// Every column has the same, non-zero, number of rows, and there is at least
/// one column.
pub open spec fn grid_wf(g: Grid) -> bool {
    &&& g.len() > 0
    &&& g[0].len() > 0
    &&& forall|i: int| 0 <= i < g.len() ==> #[trigger] g[i].len() == g[0].len()
}

/// Whether `(x, y)` lies on the grid.
pub open spec fn on_grid(g: Grid, x: int, y: int) -> bool {
    0 <= x < g.len() && 0 <= y < g[x].len()
}

/// 1 where `(x, y)` lies on the grid and holds a live cell, else 0: positions off
/// the grid contribute nothing.
pub open spec fn live(g: Grid, x: int, y: int) -> int {
    if on_grid(g, x, y) && g[x][y] {
        1
    } else {
        0
    }
}

/// The number of live cells among the eight that surround `(x, y)`, counting
/// only those that lie on the grid.
pub open spec fn neighbor_count(g: Grid, x: int, y: int) -> int {
    live(g, x - 1, y - 1) + live(g, x - 1, y) + live(g, x - 1, y + 1)
        + live(g, x, y - 1) + live(g, x, y + 1)
        + live(g, x + 1, y - 1) + live(g, x + 1, y) + live(g, x + 1, y + 1)
}

/// The rule of Life: a live cell survives with two or three live neighbours, a
/// dead cell comes alive with exactly three.
pub open spec fn life_rule(alive: bool, count: int) -> bool {
    if alive {
        1 < count < 4
    } else {
        count == 3
    }
}

/// The next generation of `g`, every cell computed from `g` alone.
pub open spec fn life_step(g: Grid) -> Grid {
    Seq::new(
        g.len(),
        |x: int| Seq::new(g[x].len(), |y: int| life_rule(g[x][y], neighbor_count(g, x, y))),
    )
}

/// `g` after `n` generations.
pub open spec fn life_steps(g: Grid, n: nat) -> Grid
    decreases n,
{
    if n == 0 {
        g
    } else {
        life_steps(life_step(g), (n - 1) as nat)
    }
}

/// The next state of a cell that is `alive` now and has `count` live neighbours.
pub fn next_state(alive: bool, count: u8) -> (r: bool)
    ensures
        r == life_rule(alive, count as int),
{
    if alive {
        count > 1 && count < 4
    } else {
        count == 3
    }
}

/// The rule, case by case: a live cell with fewer than two live neighbours
/// dies, with two or three it lives on, with four or more it dies; a dead cell
/// with exactly three comes alive and otherwise stays dead.
pub proof fn lemma_rule_table(alive: bool, count: int)
    requires
        0 <= count <= 8,
    ensures
        alive && count <= 1 ==> !life_rule(alive, count),
        alive && (count == 2 || count == 3) ==> life_rule(alive, count),
        alive && count >= 4 ==> !life_rule(alive, count),
        !alive && count == 3 ==> life_rule(alive, count),
        !alive && count != 3 ==> !life_rule(alive, count),
{
}

/// A neighbour count is never more than eight.
pub proof fn lemma_neighbor_count_bounds(g: Grid, x: int, y: int)
    ensures
        0 <= neighbor_count(g, x, y) <= 8,
{
}

/// A grid of `width` columns and `height` rows whose only live cells form the
/// two-by-two square with its corner at column `a`, row `b`.
pub open spec fn block_grid(width: nat, height: nat, a: int, b: int) -> Grid {
    Seq::new(width, |x: int| Seq::new(height, |y: int| a <= x <= a + 1 && b <= y <= b + 1))
}

/// The block is a still life: one generation leaves it as it was.
pub proof fn lemma_block_step(width: nat, height: nat, a: int, b: int)
    requires
        0 <= a,
        a + 2 <= width,
        0 <= b,
        b + 2 <= height,
    ensures
        life_step(block_grid(width, height, a, b)) == block_grid(width, height, a, b),
{
    let g = block_grid(width, height, a, b);
    assert forall|x: int, y: int| 0 <= x < width && 0 <= y < height implies #[trigger] life_step(g)[x][y]
        == g[x][y] by {
        let n = neighbor_count(g, x, y);
        if a <= x <= a + 1 && b <= y <= b + 1 {
            assert(n == 3);
        } else {
            assert(n <= 2);
        }
    }
    assert(life_step(g) =~~= g);
}

/// A lone two-by-two block on an otherwise dead grid stays unchanged however
/// many generations pass.
pub proof fn lemma_block_still_life(width: nat, height: nat, a: int, b: int, n: nat)
    requires
        0 <= a,
        a + 2 <= width,
        0 <= b,
        b + 2 <= height,
    ensures
        life_steps(block_grid(width, height, a, b), n) == block_grid(width, height, a, b),
    decreases n,
{
    if n > 0 {
        lemma_block_step(width, height, a, b);
        lemma_block_still_life(width, height, a, b, (n - 1) as nat);
    }
}

} // verus!
