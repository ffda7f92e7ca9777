use vstd::prelude::*;
use crate::color::{default_tag, ColorTag};
use crate::error::SimError;

verus! {

/// What a grid is: its size, and for every column the liveness and the
/// colour tag of each of its cells. The cell `(x, y)` is `cells[x][y]`.
pub struct GridView {
    pub width: nat,
    pub height: nat,
    pub cells: Seq<Seq<bool>>,
    pub colors: Seq<Seq<ColorTag>>,
}

impl GridView {
    /// Both dimensions are positive, and both tables are dense.
    pub open spec fn wf(self) -> bool {
        &&& self.width > 0
        &&& self.height > 0
        &&& self.cells.len() == self.width
        &&& self.colors.len() == self.width
        &&& forall|x: int| 0 <= x < self.width ==> (#[trigger] self.cells[x]).len() == self.height
        &&& forall|x: int| 0 <= x < self.width ==> (#[trigger] self.colors[x]).len() == self.height
    }

    /// `(x, y)` is a cell of the grid.
    pub open spec fn in_bounds(self, x: int, y: int) -> bool {
        0 <= x < self.width && 0 <= y < self.height
    }

    /// `(x, y)` is a live cell. Outside the grid nothing lives.
    pub open spec fn alive(self, x: int, y: int) -> bool {
        self.in_bounds(x, y) && self.cells[x][y]
    }

    /// No cell lives.
    pub open spec fn all_dead(self) -> bool {
        forall|x: int, y: int| !self.alive(x, y)
    }

    /// The grid as it is made: every cell dead, every tag the default.
    pub open spec fn fresh(width: nat, height: nat) -> GridView {
        GridView {
            width,
            height,
            cells: Seq::new(width, |x: int| Seq::new(height, |y: int| false)),
            colors: Seq::new(width, |x: int| Seq::new(height, |y: int| default_tag())),
        }
    }

    /// The grid with the one cell `(x, y)` set to `alive`.
    pub open spec fn with_cell(self, x: int, y: int, alive: bool) -> GridView {
        GridView { cells: self.cells.update(x, self.cells[x].update(y, alive)), ..self }
    }

    /// The grid with every cell dead and the tags as they were.
    pub open spec fn cleared(self) -> GridView {
        GridView {
            cells: Seq::new(self.width, |x: int| Seq::new(self.height, |y: int| false)),
            ..self
        }
    }

    /// The grid with the tag of every cell given by `tag_of`.
    pub open spec fn recolored(self, tag_of: spec_fn(int, int) -> ColorTag) -> GridView {
        GridView {
            colors: Seq::new(self.width, |x: int| Seq::new(self.height, |y: int| tag_of(x, y))),
            ..self
        }
    }

    /// The live cells, as a set of coordinates.
    pub open spec fn live_cells(self) -> Set<(int, int)> {
        Set::new(|p: (int, int)| self.alive(p.0, p.1))
    }
}

/// What a table of columns holds.
pub open spec fn table<T>(columns: Vec<Vec<T>>) -> Seq<Seq<T>> {
    Seq::new(columns.len() as nat, |x: int| columns[x]@)
}

/// Writes `value` at `[x][y]` and leaves every other entry as it was.
fn store<T>(rows: &mut Vec<Vec<T>>, x: usize, y: usize, value: T)
    requires
        x < old(rows).len(),
        y < old(rows)[x as int].len(),
    ensures
        final(rows).len() == old(rows).len(),
        forall|i: int| 0 <= i < old(rows).len() && i != x ==> final(rows)[i] == old(rows)[i],
        final(rows)[x as int]@ == old(rows)[x as int]@.update(y as int, value),
    no_unwind
{
    rows[x][y] = value;
}

/// A table of `width` columns of `height` entries, each of them `value`.
fn filled<T: Copy>(width: usize, height: usize, value: T) -> (rows: Vec<Vec<T>>)
    ensures
        rows.len() == width,
        forall|x: int| 0 <= x < width ==> (#[trigger] rows[x])@ == Seq::new(height as nat, |y: int| value),
{
    let mut rows: Vec<Vec<T>> = Vec::new();
    let mut x: usize = 0;
    while x < width
        invariant
            x <= width,
            rows.len() == x,
            forall|i: int| 0 <= i < x ==> (#[trigger] rows[i])@ == Seq::new(height as nat, |y: int| value),
        decreases width - x,
    {
        let mut column: Vec<T> = Vec::new();
        let mut y: usize = 0;
        while y < height
            invariant
                y <= height,
                column.len() == y,
                forall|j: int| 0 <= j < y ==> column[j] == value,
            decreases height - y,
        {
            column.push(value);
            y += 1;
        }
        assert(column@ =~= Seq::new(height as nat, |y: int| value));
        rows.push(column);
        x += 1;
    }
    rows
}

/// The bounded universe: a dense table of cells, each live or dead, and of
/// their colour tags.
#[derive(Debug)]
pub struct Grid {
    width: usize,
    height: usize,
    cells: Vec<Vec<bool>>,
    colors: Vec<Vec<ColorTag>>,
}

impl View for Grid {
    type V = GridView;

    closed spec fn view(&self) -> GridView {
        GridView {
            width: self.width as nat,
            height: self.height as nat,
            cells: Seq::new(self.cells.len() as nat, |x: int| self.cells[x]@),
            colors: Seq::new(self.colors.len() as nat, |x: int| self.colors[x]@),
        }
    }
}

impl Grid {
    #[verifier::type_invariant]
    spec fn inv(self) -> bool {
        &&& self.width > 0
        &&& self.height > 0
        &&& self.cells.len() == self.width
        &&& self.colors.len() == self.width
        &&& forall|x: int| 0 <= x < self.width ==> (#[trigger] self.cells[x]).len() == self.height
        &&& forall|x: int| 0 <= x < self.width ==> (#[trigger] self.colors[x]).len() == self.height
    }

    /// A grid of `width` by `height` dead cells with the default tag.
    fn fresh(width: usize, height: usize) -> (made: Grid)
        requires
            width > 0,
            height > 0,
        ensures
            made@ == GridView::fresh(width as nat, height as nat),
    {
        let cells = filled(width, height, false);
        let colors = filled(width, height, ColorTag::black());
        let made = Grid { width, height, cells, colors };
        assert(made@.cells =~= GridView::fresh(width as nat, height as nat).cells);
        assert(made@.colors =~= GridView::fresh(width as nat, height as nat).colors);
        made
    }

    /// A grid of `width` by `height` dead cells with the default tag, unless
    /// a dimension is zero.
    pub fn new(width: usize, height: usize) -> (made: Result<Grid, SimError>)
        ensures
            width == 0 || height == 0 ==> made == Err::<Grid, SimError>(SimError::InvalidDimensions),
            width > 0 && height > 0 ==> made is Ok && made->Ok_0@ == GridView::fresh(
                width as nat,
                height as nat,
            ),
    {
        if width == 0 || height == 0 {
            return Err(SimError::InvalidDimensions);
        }
        let grid = Grid::fresh(width, height);
        Ok(grid)
    }

    /// A new grid of the same size: every cell dead, every tag the default.
    pub fn blank(&self) -> (made: Grid)
        ensures
            made@ == GridView::fresh(self@.width, self@.height),
            made@.wf(),
    {
        proof {
            use_type_invariant(self);
        }
        let made = Grid::fresh(self.width, self.height);
        made
    }

    /// The number of columns. Every grid is well formed.
    pub fn width(&self) -> (width: usize)
        ensures
            width == self@.width,
            self@.wf(),
    {
        proof {
            use_type_invariant(self);
        }
        self.width
    }

    /// The number of rows. Every grid is well formed.
    pub fn height(&self) -> (height: usize)
        ensures
            height == self@.height,
            self@.wf(),
    {
        proof {
            use_type_invariant(self);
        }
        self.height
    }

    /// Whether `(x, y)` is a live cell of the grid; `false` outside it.
    pub fn is_alive(&self, x: usize, y: usize) -> (alive: bool)
        ensures
            alive == self@.alive(x as int, y as int),
    {
        proof {
            use_type_invariant(self);
        }
        x < self.width && y < self.height && self.cells[x][y]
    }

    /// The state of the cell `(x, y)`.
    pub fn get(&self, x: usize, y: usize) -> (found: Result<bool, SimError>)
        ensures
            self@.in_bounds(x as int, y as int) ==> found == Ok::<bool, SimError>(
                self@.cells[x as int][y as int],
            ),
            !self@.in_bounds(x as int, y as int) ==> found == Err::<bool, SimError>(
                SimError::OutOfBounds,
            ),
    {
        proof {
            use_type_invariant(self);
        }
        if x < self.width && y < self.height {
            Ok(self.cells[x][y])
        } else {
            Err(SimError::OutOfBounds)
        }
    }

    /// The colour tag of the cell `(x, y)`.
    pub fn color(&self, x: usize, y: usize) -> (found: Result<ColorTag, SimError>)
        ensures
            self@.in_bounds(x as int, y as int) ==> found == Ok::<ColorTag, SimError>(
                self@.colors[x as int][y as int],
            ),
            !self@.in_bounds(x as int, y as int) ==> found == Err::<ColorTag, SimError>(
                SimError::OutOfBounds,
            ),
    {
        proof {
            use_type_invariant(self);
        }
        if x < self.width && y < self.height {
            Ok(self.colors[x][y])
        } else {
            Err(SimError::OutOfBounds)
        }
    }

    /// Sets the one cell `(x, y)`; outside the grid nothing changes.
    pub fn set(&mut self, x: usize, y: usize, alive: bool) -> (done: Result<(), SimError>)
        ensures
            old(self)@.in_bounds(x as int, y as int) ==> done == Ok::<(), SimError>(())
                && final(self)@ == old(self)@.with_cell(x as int, y as int, alive),
            !old(self)@.in_bounds(x as int, y as int) ==> done == Err::<(), SimError>(
                SimError::OutOfBounds,
            ) && final(self)@ == old(self)@,
            final(self)@.wf(),
    {
        proof {
            use_type_invariant(&*self);
        }
        if x < self.width && y < self.height {
            store(&mut self.cells, x, y, alive);
            assert(self@.cells =~= old(self)@.with_cell(x as int, y as int, alive).cells);
            Ok(())
        } else {
            Err(SimError::OutOfBounds)
        }
    }

    /// Turns a dead cell live and a live cell dead; outside the grid nothing
    /// changes.
    pub fn toggle(&mut self, x: usize, y: usize) -> (done: Result<(), SimError>)
        ensures
            old(self)@.in_bounds(x as int, y as int) ==> done == Ok::<(), SimError>(())
                && final(self)@ == old(self)@.with_cell(
                x as int,
                y as int,
                !old(self)@.cells[x as int][y as int],
            ),
            !old(self)@.in_bounds(x as int, y as int) ==> done == Err::<(), SimError>(
                SimError::OutOfBounds,
            ) && final(self)@ == old(self)@,
            final(self)@.wf(),
    {
        match self.get(x, y) {
            Ok(alive) => self.set(x, y, !alive),
            Err(error) => {
                proof {
                    use_type_invariant(&*self);
                }
                Err(error)
            },
        }
    }

    /// Kills every cell. The tags stay.
    pub fn clear(&mut self)
        ensures
            final(self)@ == old(self)@.cleared(),
            final(self)@.wf(),
    {
        proof {
            use_type_invariant(&*self);
        }
        self.cells = filled(self.width, self.height, false);
        assert(self@.cells =~= old(self)@.cleared().cells);
    }

    /// Gives every cell the tag that `tag_fn` returns for its coordinates.
    /// The cells stay as they are.
    pub fn fill_colors<F: Fn(usize, usize) -> ColorTag>(&mut self, tag_fn: F)
        requires
            forall|x: usize, y: usize|
                old(self)@.in_bounds(x as int, y as int) ==> #[trigger] call_requires(
                    tag_fn,
                    (x, y),
                ),
        ensures
            final(self)@.wf(),
            final(self)@.width == old(self)@.width,
            final(self)@.height == old(self)@.height,
            final(self)@.cells == old(self)@.cells,
            forall|x: usize, y: usize|
                old(self)@.in_bounds(x as int, y as int) ==> call_ensures(
                    tag_fn,
                    (x, y),
                    #[trigger] final(self)@.colors[x as int][y as int],
                ),
    {
        proof {
            use_type_invariant(&*self);
        }
        let width = self.width;
        let height = self.height;
        let mut colors: Vec<Vec<ColorTag>> = Vec::new();
        let mut x: usize = 0;
        while x < width
            invariant
                x <= width,
                colors.len() == x,
                forall|i: usize, j: usize|
                    i < width && j < height ==> #[trigger] call_requires(tag_fn, (i, j)),
                forall|i: int| 0 <= i < x ==> (#[trigger] colors[i]).len() == height,
                forall|i: usize, j: usize|
                    i < x && j < height ==> call_ensures(
                        tag_fn,
                        (i, j),
                        #[trigger] colors[i as int][j as int],
                    ),
            decreases width - x,
        {
            let mut column: Vec<ColorTag> = Vec::new();
            let mut y: usize = 0;
            while y < height
                invariant
                    x < width,
                    y <= height,
                    column.len() == y,
                    forall|i: usize, j: usize|
                        i < width && j < height ==> #[trigger] call_requires(tag_fn, (i, j)),
                    forall|j: usize|
                        j < y ==> call_ensures(tag_fn, (x, j), #[trigger] column[j as int]),
                decreases height - y,
            {
                column.push(tag_fn(x, y));
                y += 1;
            }
            colors.push(column);
            x += 1;
        }
        self.colors = colors;
        assert(self@.cells =~= old(self)@.cells);
    }

    /// A copy of the cells, column by column.
    pub fn cell_table(&self) -> (columns: Vec<Vec<bool>>)
        ensures
            table(columns) == self@.cells,
    {
        let columns = self.cells.clone();
        assert forall|x: int| 0 <= x < self.cells.len() implies (#[trigger] columns[x])@
            == self.cells[x]@ by {
            assert(cloned::<Vec<bool>>(self.cells[x], columns[x]));
            assert(columns[x]@ =~= self.cells[x]@);
        }
        assert(table(columns) =~= self@.cells);
        columns
    }

    /// A copy of the colour tags, column by column.
    pub fn color_table(&self) -> (columns: Vec<Vec<ColorTag>>)
        ensures
            table(columns) == self@.colors,
    {
        let columns = self.colors.clone();
        assert forall|x: int| 0 <= x < self.colors.len() implies (#[trigger] columns[x])@
            == self.colors[x]@ by {
            assert(cloned::<Vec<ColorTag>>(self.colors[x], columns[x]));
            assert(columns[x]@ =~= self.colors[x]@);
        }
        assert(table(columns) =~= self@.colors);
        columns
    }

    /// The live cells, column by column and from the top of each down.
    pub fn live_cells(&self) -> (found: Vec<(usize, usize)>)
        ensures
            forall|i: int|
                0 <= i < found.len() ==> self@.alive(
                    (#[trigger] found[i]).0 as int,
                    found[i].1 as int,
                ),
            forall|x: int, y: int|
                self@.alive(x, y) ==> exists|i: int|
                    0 <= i < found.len() && (#[trigger] found[i]).0 == x && found[i].1 == y,
            forall|i: int, j: int|
                0 <= i < j < found.len() ==> comes_before(#[trigger] found[i], #[trigger] found[j]),
    {
        proof {
            use_type_invariant(self);
        }
        let mut found: Vec<(usize, usize)> = Vec::new();
        let mut x: usize = 0;
        while x < self.width
            invariant
                self.inv(),
                x <= self.width,
                forall|i: int|
                    0 <= i < found.len() ==> self@.alive(
                        (#[trigger] found[i]).0 as int,
                        found[i].1 as int,
                    ) && found[i].0 < x,
                forall|a: int, b: int|
                    self@.alive(a, b) && a < x ==> exists|i: int|
                        0 <= i < found.len() && (#[trigger] found[i]).0 == a && found[i].1 == b,
                forall|i: int, j: int|
                    0 <= i < j < found.len() ==> comes_before(
                        #[trigger] found[i],
                        #[trigger] found[j],
                    ),
            decreases self.width - x,
        {
            let mut y: usize = 0;
            while y < self.height
                invariant
                    self.inv(),
                    x < self.width,
                    y <= self.height,
                    forall|i: int|
                        0 <= i < found.len() ==> self@.alive(
                            (#[trigger] found[i]).0 as int,
                            found[i].1 as int,
                        ) && (found[i].0 < x || (found[i].0 == x && found[i].1 < y)),
                    forall|a: int, b: int|
                        self@.alive(a, b) && (a < x || (a == x && b < y)) ==> exists|i: int|
                            0 <= i < found.len() && (#[trigger] found[i]).0 == a && found[i].1 == b,
                    forall|i: int, j: int|
                        0 <= i < j < found.len() ==> comes_before(
                            #[trigger] found[i],
                            #[trigger] found[j],
                        ),
                decreases self.height - y,
            {
                if self.cells[x][y] {
                    let ghost before = found@;
                    found.push((x, y));
                    assert forall|a: int, b: int|
                        self@.alive(a, b) && (a < x || (a == x && b < y + 1)) implies exists|
                        i: int,
                    |
                        0 <= i < found.len() && (#[trigger] found[i]).0 == a && found[i].1
                            == b by {
                        if a == x && b == y {
                            assert(found[before.len() as int] == (x, y));
                        } else {
                            let i = choose|i: int|
                                0 <= i < before.len() && (#[trigger] before[i]).0 == a
                                    && before[i].1 == b;
                            assert(found[i] == before[i]);
                        }
                    }
                }
                y += 1;
            }
            x += 1;
        }
        found
    }
}

/// The order in which `live_cells` lists coordinates: by column, then by
/// row.
pub open spec fn comes_before(first: (usize, usize), second: (usize, usize)) -> bool {
    first.0 < second.0 || (first.0 == second.0 && first.1 < second.1)
}

impl Clone for Grid {
    /// A deep copy: the same cells and the same tags.
    fn clone(&self) -> (copy: Grid)
        ensures
            copy@ == self@,
            copy@.wf(),
    {
        proof {
            use_type_invariant(self);
        }
        let cells = self.cells.clone();
        let colors = self.colors.clone();
        assert forall|x: int| 0 <= x < self.width implies (#[trigger] cells[x])@
            == self.cells[x]@ by {
            assert(cloned::<Vec<bool>>(self.cells[x], cells[x]));
            assert(cells[x]@ =~= self.cells[x]@);
        }
        assert forall|x: int| 0 <= x < self.width implies (#[trigger] colors[x])@
            == self.colors[x]@ by {
            assert(cloned::<Vec<ColorTag>>(self.colors[x], colors[x]));
            assert(colors[x]@ =~= self.colors[x]@);
        }
        let copy = Grid { width: self.width, height: self.height, cells, colors };
        assert(copy@.cells =~= self@.cells);
        assert(copy@.colors =~= self@.colors);
        copy
    }
}

} // verus!
