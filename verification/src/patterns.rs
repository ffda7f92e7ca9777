use vstd::prelude::*;
use crate::error::SimError;
use crate::grid::{Grid, GridView};
use crate::random::{seeded_below, seeded_value};

verus! {

/// The presets that the library knows.
#[derive(Clone, Copy, Debug, PartialEq, Eq, Structural)]
pub enum Preset {
    /// The smaller fixed layout, named `A`.
    First,
    /// The first layout with fifteen cells more, named `B`.
    Second,
    /// Cells drawn at random, named `random`.
    Random,
}

/// How many cells the random preset draws. Two draws may hit one cell.
pub const RANDOM_DRAWS: usize = 500;

/// The preset registered under `name`, if there is one.
pub open spec fn preset_named(name: Seq<char>) -> Option<Preset> {
    if name == seq!['A'] {
        Some(Preset::First)
    } else if name == seq!['B'] {
        Some(Preset::Second)
    } else if name == seq!['r', 'a', 'n', 'd', 'o', 'm'] {
        Some(Preset::Random)
    } else {
        None
    }
}

/// The cells of the first layout.
pub open spec fn first_cells() -> Seq<(usize, usize)> {
    seq![
        (1usize, 2usize), (2, 3), (3, 3), (3, 2), (4, 2), (6, 3), (8, 3), (8, 2),
        (9, 2), (11, 3), (13, 3), (13, 2), (14, 2), (17, 3), (18, 3), (19, 2),
        (5, 5), (7, 8), (10, 12), (15, 18), (20, 25),
        (25, 30), (30, 35), (35, 40), (40, 1), (2, 38),
    ]
}

/// The cells that the second layout adds to the first.
pub open spec fn added_cells() -> Seq<(usize, usize)> {
    seq![
        (3usize, 10usize), (5, 15), (10, 20), (12, 28), (18, 32),
        (20, 5), (22, 10), (28, 15), (32, 20), (38, 25),
        (1, 30), (5, 35), (10, 38), (15, 3), (20, 12),
    ]
}

/// The cells of the second layout: the first, then the added ones.
pub open spec fn second_cells() -> Seq<(usize, usize)> {
    first_cells() + added_cells()
}

/// The `index`-th draw of the random preset: a column below `width` and a
/// row below `height`, each from a seed of its own.
pub open spec fn drawn_cell(seed: u64, width: nat, height: nat, index: int) -> (usize, usize) {
    (
        seeded_value(seed.wrapping_add((2 * index) as u64), width as u64) as usize,
        seeded_value(seed.wrapping_add((2 * index + 1) as u64), height as u64) as usize,
    )
}

/// The draws of the random preset, in order.
pub open spec fn random_cells(seed: u64, width: nat, height: nat) -> Seq<(usize, usize)> {
    Seq::new(RANDOM_DRAWS as nat, |index: int| drawn_cell(seed, width, height, index))
}

/// The seed that follows `seed`: past the two seeds of each draw.
pub open spec fn next_seed(seed: u64) -> u64 {
    seed.wrapping_add((2 * RANDOM_DRAWS) as u64)
}

/// The cells that `preset` asks for in a grid of `width` by `height`.
pub open spec fn preset_cells(preset: Preset, seed: u64, width: nat, height: nat) -> Seq<
    (usize, usize),
> {
    match preset {
        Preset::First => first_cells(),
        Preset::Second => second_cells(),
        Preset::Random => random_cells(seed, width, height),
    }
}

/// `(x, y)` is one of `cells`.
pub open spec fn listed(cells: Seq<(usize, usize)>, x: int, y: int) -> bool {
    exists|index: int| 0 <= index < cells.len() && (#[trigger] cells[index]).0 == x && cells[index].1 == y
}

/// The grid with those of `cells` that lie in it set live. Cells outside it
/// are left out.
pub open spec fn planted(grid: GridView, cells: Seq<(usize, usize)>) -> GridView {
    GridView {
        cells: Seq::new(
            grid.width,
            |x: int| Seq::new(grid.height, |y: int| grid.cells[x][y] || listed(cells, x, y)),
        ),
        ..grid
    }
}

/// What loading `preset` gives: a fresh grid with the preset's cells live.
pub open spec fn preset_grid(preset: Preset, seed: u64, width: nat, height: nat) -> GridView {
    planted(GridView::fresh(width, height), preset_cells(preset, seed, width, height))
}

/// Sets each of `cells` live that lies in the grid, and skips the others.
pub fn plant(grid: &mut Grid, cells: &Vec<(usize, usize)>)
    ensures
        final(grid)@ == planted(old(grid)@, cells@),
        final(grid)@.wf(),
{
    let width = grid.width();
    let height = grid.height();
    let mut index: usize = 0;
    assert(grid@.cells =~~= planted(old(grid)@, cells@.take(0)).cells) by {
        assert forall|x: int, y: int| !listed(cells@.take(0), x, y) by {}
    }
    while index < cells.len()
        invariant
            index <= cells.len(),
            old(grid)@.wf(),
            grid@.wf(),
            grid@ == planted(old(grid)@, cells@.take(index as int)),
        decreases cells.len() - index,
    {
        let (x, y) = cells[index];
        let ghost before = grid@;
        let _ = grid.set(x, y, true);
        proof {
            let shorter = cells@.take(index as int);
            let longer = cells@.take(index + 1);
            assert forall|a: int, b: int| listed(longer, a, b) <==> (listed(shorter, a, b) || (a
                == x && b == y)) by {
                if listed(shorter, a, b) {
                    let k = choose|k: int|
                        0 <= k < shorter.len() && (#[trigger] shorter[k]).0 == a && shorter[k].1
                            == b;
                    assert(longer[k] == shorter[k]);
                }
                if a == x && b == y {
                    assert(longer[index as int] == (x, y));
                }
                if listed(longer, a, b) {
                    let k = choose|k: int|
                        0 <= k < longer.len() && (#[trigger] longer[k]).0 == a && longer[k].1 == b;
                    if k < index {
                        assert(shorter[k] == longer[k]);
                    }
                }
            }
            let goal = planted(old(grid)@, longer);
            assert forall|a: int| 0 <= a < grid@.width implies #[trigger] grid@.cells[a]
                =~= goal.cells[a] by {
                assert forall|b: int| 0 <= b < grid@.height implies #[trigger] grid@.cells[a][b]
                    == goal.cells[a][b] by {
                    assert(before.cells[a][b] == (old(grid)@.cells[a][b] || listed(
                        shorter,
                        a,
                        b,
                    )));
                }
            }
            assert(grid@.cells =~= goal.cells);
        }
        index += 1;
    }
    assert(cells@.take(cells.len() as int) =~= cells@);
}

/// Whether two texts hold the same characters.
fn same_text(one: &str, other: &str) -> (same: bool)
    ensures
        same == (one@ == other@),
{
    let length = one.unicode_len();
    if length != other.unicode_len() {
        return false;
    }
    let mut index: usize = 0;
    while index < length
        invariant
            length == one@.len(),
            length == other@.len(),
            index <= length,
            forall|k: int| 0 <= k < index ==> one@[k] == other@[k],
        decreases length - index,
    {
        if one.get_char(index) != other.get_char(index) {
            return false;
        }
        index += 1;
    }
    assert(one@ =~= other@);
    true
}

/// What the three names hold, character by character.
proof fn lemma_names()
    ensures
        "A"@ == seq!['A'],
        "B"@ == seq!['B'],
        "random"@ == seq!['r', 'a', 'n', 'd', 'o', 'm'],
        preset_named("A"@) == Some(Preset::First),
        preset_named("B"@) == Some(Preset::Second),
        preset_named("random"@) == Some(Preset::Random),
{
    reveal_strlit("A");
    reveal_strlit("B");
    reveal_strlit("random");
    assert("A"@ =~= seq!['A']);
    assert("B"@ =~= seq!['B']);
    assert("random"@ =~= seq!['r', 'a', 'n', 'd', 'o', 'm']);
    assert(seq!['B'][0] != seq!['A'][0]);
    assert(seq!['r', 'a', 'n', 'd', 'o', 'm'].len() != seq!['A'].len());
}

impl Preset {
    /// The preset registered under `name`: `A`, `B` or `random`.
    pub fn from_name(name: &str) -> (found: Option<Preset>)
        ensures
            found == preset_named(name@),
    {
        proof {
            lemma_names();
        }
        if same_text(name, "A") {
            Some(Preset::First)
        } else if same_text(name, "B") {
            Some(Preset::Second)
        } else if same_text(name, "random") {
            Some(Preset::Random)
        } else {
            None
        }
    }

    /// The name under which the preset is registered.
    pub fn name(&self) -> (name: &'static str)
        ensures
            preset_named(name@) == Some(*self),
    {
        proof {
            lemma_names();
        }
        match self {
            Preset::First => "A",
            Preset::Second => "B",
            Preset::Random => "random",
        }
    }
}

/// The first layout, as a list.
fn first_layout() -> (cells: Vec<(usize, usize)>)
    ensures
        cells@ == first_cells(),
{
    let cells: Vec<(usize, usize)> = vec![
        (1usize, 2usize), (2, 3), (3, 3), (3, 2), (4, 2), (6, 3), (8, 3), (8, 2),
        (9, 2), (11, 3), (13, 3), (13, 2), (14, 2), (17, 3), (18, 3), (19, 2),
        (5, 5), (7, 8), (10, 12), (15, 18), (20, 25),
        (25, 30), (30, 35), (35, 40), (40, 1), (2, 38),
    ];
    assert(cells@ =~= first_cells());
    cells
}

/// The second layout, as a list: the first with its added cells behind.
fn second_layout() -> (cells: Vec<(usize, usize)>)
    ensures
        cells@ == second_cells(),
{
    let mut cells = first_layout();
    let mut added: Vec<(usize, usize)> = vec![
        (3usize, 10usize), (5, 15), (10, 20), (12, 28), (18, 32),
        (20, 5), (22, 10), (28, 15), (32, 20), (38, 25),
        (1, 30), (5, 35), (10, 38), (15, 3), (20, 12),
    ];
    assert(added@ =~= added_cells());
    cells.append(&mut added);
    cells
}

/// The draws of the random preset for `seed`, as a list.
fn random_layout(seed: u64, width: usize, height: usize) -> (cells: Vec<(usize, usize)>)
    requires
        width > 0,
        height > 0,
    ensures
        cells@ == random_cells(seed, width as nat, height as nat),
        forall|index: int|
            0 <= index < cells.len() ==> (#[trigger] cells[index]).0 < width && cells[index].1
                < height,
{
    let mut cells: Vec<(usize, usize)> = Vec::new();
    let mut index: usize = 0;
    while index < RANDOM_DRAWS
        invariant
            width > 0,
            height > 0,
            index <= RANDOM_DRAWS,
            cells.len() == index,
            forall|k: int|
                0 <= k < index ==> #[trigger] cells[k] == drawn_cell(
                    seed,
                    width as nat,
                    height as nat,
                    k,
                ),
            forall|k: int| 0 <= k < index ==> (#[trigger] cells[k]).0 < width && cells[k].1 < height,
        decreases RANDOM_DRAWS - index,
    {
        let step: u64 = 2 * (index as u64);
        let x = seeded_below(seed.wrapping_add(step), width as u64);
        let y = seeded_below(seed.wrapping_add(step + 1), height as u64);
        cells.push((x as usize, y as usize));
        index += 1;
    }
    assert(cells@ =~= random_cells(seed, width as nat, height as nat));
    cells
}

/// The source of the presets. Its seed decides what the random preset
/// draws; the fixed layouts do not read it.
#[derive(Clone, Copy, Debug, PartialEq, Eq, Structural)]
pub struct PatternLibrary {
    seed: u64,
}

impl PatternLibrary {
    /// A library whose random preset draws from `seed`.
    pub fn new(seed: u64) -> (library: PatternLibrary)
        ensures
            library.seed() == seed,
    {
        PatternLibrary { seed }
    }

    /// The seed of the random preset.
    pub closed spec fn seed(&self) -> u64 {
        self.seed
    }

    /// The seed of the random preset.
    #[verifier::when_used_as_spec(seed)]
    pub fn current_seed(&self) -> (seed: u64)
        ensures
            seed == self.seed(),
    {
        self.seed
    }

    /// Moves the seed past every draw of one random preset, so that the
    /// next one draws afresh.
    pub fn advance(&mut self)
        ensures
            final(self).seed() == next_seed(old(self).seed()),
    {
        self.seed = self.seed.wrapping_add(2 * (RANDOM_DRAWS as u64));
    }

    /// Loads the preset registered under `name` into a grid of the size of
    /// `grid`: every cell dead and every tag the default, then the preset's
    /// cells live. An unknown name is refused.
    pub fn apply(&self, name: &str, grid: &Grid) -> (loaded: Result<Grid, SimError>)
        ensures
            preset_named(name@) is None ==> loaded is Err && loaded->Err_0
                == SimError::UnknownPreset,
            preset_named(name@) is Some ==> loaded is Ok && loaded->Ok_0@ == preset_grid(
                preset_named(name@)->Some_0,
                self.seed(),
                grid@.width,
                grid@.height,
            ) && loaded->Ok_0@.wf(),
            preset_named(name@) is Some ==> loaded->Ok_0@.live_cells().finite()
                && loaded->Ok_0@.live_cells().len() <= RANDOM_DRAWS,
            preset_named(name@) == Some(Preset::Random) ==> loaded->Ok_0@.live_cells().len() > 0,
    {
        match Preset::from_name(name) {
            None => Err(SimError::UnknownPreset),
            Some(preset) => Ok(self.load(preset, grid)),
        }
    }

    /// A grid of the size of `grid` with the cells of `preset` live, every
    /// other cell dead and every tag the default.
    pub fn load(&self, preset: Preset, grid: &Grid) -> (loaded: Grid)
        ensures
            loaded@ == preset_grid(preset, self.seed(), grid@.width, grid@.height),
            loaded@.wf(),
            loaded@.live_cells().finite(),
            loaded@.live_cells().len() <= RANDOM_DRAWS,
            preset == Preset::Random ==> loaded@.live_cells().len() > 0,
    {
        let width = grid.width();
        let height = grid.height();
        let cells = match preset {
            Preset::First => first_layout(),
            Preset::Second => second_layout(),
            Preset::Random => random_layout(self.seed, width, height),
        };
        let mut loaded = grid.blank();
        plant(&mut loaded, &cells);
        proof {
            lemma_planted_live_count(grid@.width, grid@.height, cells@);
            if preset == Preset::Random {
                assert(cells[0].0 < width && cells[0].1 < height);
            }
        }
        loaded
    }
}

/// The places that `cells` names, as coordinates.
spec fn places(cells: Seq<(usize, usize)>) -> Seq<(int, int)> {
    Seq::new(cells.len(), |index: int| (cells[index].0 as int, cells[index].1 as int))
}

/// Planting `cells` in a fresh grid leaves at most as many live cells as
/// `cells` is long, since two of them may name one cell and some may lie
/// outside; and at least one, if any of them lies in the grid.
pub proof fn lemma_planted_live_count(width: nat, height: nat, cells: Seq<(usize, usize)>)
    ensures
        planted(GridView::fresh(width, height), cells).live_cells().finite(),
        planted(GridView::fresh(width, height), cells).live_cells().len() <= cells.len(),
        (exists|index: int|
            0 <= index < cells.len() && (#[trigger] cells[index]).0 < width && cells[index].1
                < height) ==> planted(GridView::fresh(width, height), cells).live_cells().len() > 0,
{
    let grid = planted(GridView::fresh(width, height), cells);
    let live = grid.live_cells();
    let named = places(cells).to_set();
    assert forall|p: (int, int)| live.contains(p) implies named.contains(p) by {
        assert(grid.alive(p.0, p.1));
        assert(listed(cells, p.0, p.1));
        let index = choose|index: int|
            0 <= index < cells.len() && (#[trigger] cells[index]).0 == p.0 && cells[index].1 == p.1;
        assert(places(cells)[index] == p);
    }
    assert(live.subset_of(named));
    vstd::seq_lib::seq_to_set_is_finite(places(cells));
    places(cells).lemma_cardinality_of_set();
    vstd::set_lib::lemma_len_subset(live, named);
    if exists|index: int|
        0 <= index < cells.len() && (#[trigger] cells[index]).0 < width && cells[index].1 < height {
        let index = choose|index: int|
            0 <= index < cells.len() && (#[trigger] cells[index]).0 < width && cells[index].1
                < height;
        let p = (cells[index].0 as int, cells[index].1 as int);
        assert(listed(cells, p.0, p.1));
        assert(grid.alive(p.0, p.1));
        assert(live.contains(p));
        vstd::set_lib::lemma_set_empty_equivalency_len(live);
        assert(live != Set::<(int, int)>::empty());
    }
}

/// The random preset is repeatable: from one seed, on grids of one size, it
/// gives the same grid, and so the same live cells.
pub proof fn lemma_random_preset_is_repeatable(
    seed: u64,
    width: nat,
    height: nat,
    one: GridView,
    other: GridView,
)
    requires
        one == preset_grid(Preset::Random, seed, width, height),
        other == preset_grid(Preset::Random, seed, width, height),
    ensures
        one == other,
        one.live_cells() == other.live_cells(),
{
}

/// The second layout holds every cell of the first, and fifteen more.
pub proof fn lemma_second_extends_first(x: int, y: int)
    ensures
        listed(first_cells(), x, y) ==> listed(second_cells(), x, y),
        second_cells().len() == first_cells().len() + 15,
{
    if listed(first_cells(), x, y) {
        let index = choose|index: int|
            0 <= index < first_cells().len() && (#[trigger] first_cells()[index]).0 == x
                && first_cells()[index].1 == y;
        assert(second_cells()[index] == first_cells()[index]);
    }
}

} // verus!
