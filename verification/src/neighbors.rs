use vstd::prelude::*;
use crate::grid::{Grid, GridView};

verus! {

/// One for a live cell, nothing for a dead one or for a place outside the
/// grid.
pub open spec fn live(grid: GridView, x: int, y: int) -> nat {
    if grid.alive(x, y) {
        1
    } else {
        0
    }
}

/// The live cells among the eight places around `(x, y)`. The grid has hard
/// edges: a place outside it adds nothing, and the cell itself is not
/// counted.
pub open spec fn neighbor_count(grid: GridView, x: int, y: int) -> nat {
    live(grid, x - 1, y - 1) + live(grid, x - 1, y) + live(grid, x - 1, y + 1)
        + live(grid, x, y - 1) + live(grid, x, y + 1)
        + live(grid, x + 1, y - 1) + live(grid, x + 1, y) + live(grid, x + 1, y + 1)
}

/// What the place `(a, b)` adds to the count around `(x, y)`.
spec fn share(grid: GridView, x: int, y: int, a: int, b: int) -> nat {
    if a == x && b == y {
        0
    } else {
        live(grid, a, b)
    }
}

/// The count around `(x, y)` over column `a`, rows above `limit` only.
spec fn column_above(grid: GridView, x: int, y: int, a: int, limit: int) -> nat {
    (if y - 1 < limit {
        share(grid, x, y, a, y - 1)
    } else {
        0
    }) + (if y < limit {
        share(grid, x, y, a, y)
    } else {
        0
    }) + (if y + 1 < limit {
        share(grid, x, y, a, y + 1)
    } else {
        0
    })
}

/// The count around `(x, y)` over the columns left of `limit`.
spec fn columns_left_of(grid: GridView, x: int, y: int, limit: int) -> nat {
    (if x - 1 < limit {
        column_above(grid, x, y, x - 1, y + 2)
    } else {
        0
    }) + (if x < limit {
        column_above(grid, x, y, x, y + 2)
    } else {
        0
    }) + (if x + 1 < limit {
        column_above(grid, x, y, x + 1, y + 2)
    } else {
        0
    })
}

/// Counts the live cells around `(x, y)`: the three-by-three block centred
/// there, cut off at the grid's edges, without its centre.
pub fn count_live_neighbors(grid: &Grid, x: usize, y: usize) -> (count: u16)
    ensures
        count == neighbor_count(grid@, x as int, y as int),
        count <= 8,
{
    let width = grid.width();
    let height = grid.height();
    let x_start: usize = if x > 0 { x - 1 } else { 0 };
    let x_end: usize = if x < width - 1 { x + 1 } else { width - 1 };
    let y_start: usize = if y > 0 { y - 1 } else { 0 };
    let y_end: usize = if y < height - 1 { y + 1 } else { height - 1 };

    let mut count: u16 = 0;
    let mut i: usize = x_start;
    while i <= x_end
        invariant
            grid@.wf(),
            width == grid@.width,
            height == grid@.height,
            x_start == if x > 0 { x - 1 } else { 0 },
            x_end == if x < width - 1 { x + 1 } else { width - 1 },
            y_start == if y > 0 { y - 1 } else { 0 },
            y_end == if y < height - 1 { y + 1 } else { height - 1 },
            x_start <= i,
            i <= x_end + 1 || i == x_start,
            count == columns_left_of(grid@, x as int, y as int, i as int),
        decreases x_end + 1 - i,
    {
        let mut j: usize = y_start;
        while j <= y_end
            invariant
                grid@.wf(),
                width == grid@.width,
                height == grid@.height,
                y_start == if y > 0 { y - 1 } else { 0 },
                y_end == if y < height - 1 { y + 1 } else { height - 1 },
                x_start == if x > 0 { x - 1 } else { 0 },
                x_start <= i <= x_end,
                x_end == if x < width - 1 { x + 1 } else { width - 1 },
                y_start <= j,
                j <= y_end + 1 || j == y_start,
                count == columns_left_of(grid@, x as int, y as int, i as int) + column_above(
                    grid@,
                    x as int,
                    y as int,
                    i as int,
                    j as int,
                ),
            decreases y_end + 1 - j,
        {
            if grid.is_alive(i, j) && !(i == x && j == y) {
                count += 1;
            }
            j += 1;
        }
        i += 1;
    }
    count
}

/// A cell with no live cell around it counts nothing, live or not.
pub proof fn lemma_isolated_cell_counts_nothing(grid: GridView, x: int, y: int)
    requires
        forall|a: int, b: int| grid.alive(a, b) ==> a == x && b == y,
    ensures
        neighbor_count(grid, x, y) == 0,
{
}

/// The cell itself is not counted: the count around `(x, y)` is the same
/// whether that cell lives or not.
pub proof fn lemma_center_is_not_counted(grid: GridView, x: int, y: int, alive: bool)
    requires
        grid.wf(),
        grid.in_bounds(x, y),
    ensures
        neighbor_count(grid.with_cell(x, y, alive), x, y) == neighbor_count(grid, x, y),
{
    let changed = grid.with_cell(x, y, alive);
    assert forall|a: int, b: int| !(a == x && b == y) implies live(changed, a, b) == live(
        grid,
        a,
        b,
    ) by {
        if grid.in_bounds(a, b) {
            if a == x {
                assert(changed.cells[a][b] == grid.cells[a][b]);
            } else {
                assert(changed.cells[a] == grid.cells[a]);
            }
        }
    }
}

/// No cell has more than eight live cells around it.
pub proof fn lemma_count_is_at_most_eight(grid: GridView, x: int, y: int)
    ensures
        neighbor_count(grid, x, y) <= 8,
{
}

} // verus!
