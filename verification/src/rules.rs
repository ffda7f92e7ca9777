use vstd::prelude::*;
use crate::grid::{Grid, GridView};
use crate::neighbors::{count_live_neighbors, neighbor_count};

verus! {

/// The rule: a live cell stays alive with two or three live cells around
/// it, a dead cell comes alive with exactly three.
pub open spec fn next_state(alive: bool, around: nat) -> bool {
    if alive {
        around == 2 || around == 3
    } else {
        around == 3
    }
}

/// The next generation: every cell judged by the rule on the counts of this
/// generation. The tags stay where they are.
pub open spec fn next_generation(grid: GridView) -> GridView {
    GridView {
        cells: Seq::new(
            grid.width,
            |x: int|
                Seq::new(
                    grid.height,
                    |y: int| next_state(grid.cells[x][y], neighbor_count(grid, x, y)),
                ),
        ),
        ..grid
    }
}

/// `count` generations on from `grid`.
pub open spec fn generations(grid: GridView, count: nat) -> GridView
    decreases count,
{
    if count == 0 {
        grid
    } else {
        next_generation(generations(grid, (count - 1) as nat))
    }
}

/// Applies the rule to every cell at once.
pub struct RuleEngine;

impl RuleEngine {
    /// Whether a cell lives on, or comes alive, with `around` live cells
    /// around it.
    pub fn decide(alive: bool, around: u16) -> (lives: bool)
        ensures
            lives == next_state(alive, around as nat),
    {
        if alive {
            if around < 2 {
                false
            } else if around > 3 {
                false
            } else {
                true
            }
        } else {
            around == 3
        }
    }

    /// The next generation of `grid`, as a new grid: every count is taken
    /// from `grid`, every write goes to the copy.
    pub fn step(grid: &Grid) -> (next: Grid)
        ensures
            next@ == next_generation(grid@),
            next@.wf(),
    {
        let width = grid.width();
        let height = grid.height();
        let mut next = grid.clone();
        let mut x: usize = 0;
        while x < width
            invariant
                grid@.wf(),
                next@.wf(),
                width == grid@.width,
                height == grid@.height,
                next@.width == grid@.width,
                next@.height == grid@.height,
                next@.colors == grid@.colors,
                x <= width,
                forall|a: int, b: int|
                    0 <= a < x && 0 <= b < height ==> #[trigger] next@.cells[a][b] == next_state(
                        grid@.cells[a][b],
                        neighbor_count(grid@, a, b),
                    ),
            decreases width - x,
        {
            let mut y: usize = 0;
            while y < height
                invariant
                    grid@.wf(),
                    next@.wf(),
                    width == grid@.width,
                    height == grid@.height,
                    next@.width == grid@.width,
                    next@.height == grid@.height,
                    next@.colors == grid@.colors,
                    x < width,
                    y <= height,
                    forall|a: int, b: int|
                        0 <= a < x && 0 <= b < height ==> #[trigger] next@.cells[a][b]
                            == next_state(grid@.cells[a][b], neighbor_count(grid@, a, b)),
                    forall|b: int|
                        0 <= b < y ==> #[trigger] next@.cells[x as int][b] == next_state(
                            grid@.cells[x as int][b],
                            neighbor_count(grid@, x as int, b),
                        ),
                decreases height - y,
            {
                let around = count_live_neighbors(grid, x, y);
                let lives = Self::decide(grid.is_alive(x, y), around);
                let _ = next.set(x, y, lives);
                y += 1;
            }
            x += 1;
        }
        assert(next@.cells =~~= next_generation(grid@).cells);
        next
    }
}

/// The empty grid is stable: with every cell dead, the next generation is
/// the grid itself.
pub proof fn lemma_empty_grid_is_stable(grid: GridView)
    requires
        grid.wf(),
        grid.all_dead(),
    ensures
        next_generation(grid) == grid,
        next_generation(grid).all_dead(),
{
    let next = next_generation(grid);
    assert forall|x: int| 0 <= x < grid.width implies #[trigger] next.cells[x] == grid.cells[x] by {
        assert forall|y: int| 0 <= y < grid.height implies #[trigger] next.cells[x][y]
            == grid.cells[x][y] by {
            assert(!grid.alive(x, y));
            assert(!grid.alive(x - 1, y - 1) && !grid.alive(x - 1, y) && !grid.alive(x - 1, y + 1));
            assert(!grid.alive(x, y - 1) && !grid.alive(x, y + 1));
            assert(!grid.alive(x + 1, y - 1) && !grid.alive(x + 1, y) && !grid.alive(x + 1, y + 1));
        }
        assert(next.cells[x] =~= grid.cells[x]);
    }
    assert(next.cells =~= grid.cells);
}

/// A generation keeps the grid well formed, with its size and its tags.
pub proof fn lemma_generation_keeps_shape(grid: GridView)
    requires
        grid.wf(),
    ensures
        next_generation(grid).wf(),
        next_generation(grid).width == grid.width,
        next_generation(grid).height == grid.height,
        next_generation(grid).colors == grid.colors,
{
}

} // verus!
