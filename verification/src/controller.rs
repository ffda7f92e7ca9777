use vstd::prelude::*;
use crate::color::{mode_tag, ColorMode, ColorTag};
use crate::error::SimError;
use crate::grid::{table, Grid, GridView};
use crate::input::{
    command_for_key, command_for_pointer, key_command, pointer_command, Command, Key,
    GRID_HEIGHT, GRID_WIDTH,
};
use crate::patterns::{next_seed, preset_grid, preset_named, PatternLibrary, Preset};
use crate::rules::{generations, next_generation, RuleEngine};

verus! {

/// What a simulation is at one moment.
pub struct StateView {
    pub grid: GridView,
    pub running: bool,
    pub rate: nat,
    pub color_mode: ColorMode,
}

/// The simulation: its grid, whether it runs, how fast, and how its cells
/// are coloured.
#[derive(Debug)]
pub struct State {
    grid: Grid,
    rate: u32,
    running: bool,
    color_mode: ColorMode,
}

impl View for State {
    type V = StateView;

    closed spec fn view(&self) -> StateView {
        StateView {
            grid: self.grid@,
            running: self.running,
            rate: self.rate as nat,
            color_mode: self.color_mode,
        }
    }
}

impl StateView {
    /// The state that a simulation starts in: an empty grid, paused, with
    /// no limit on the rate, every cell black.
    pub open spec fn initial(width: nat, height: nat) -> StateView {
        StateView {
            grid: GridView::fresh(width, height),
            running: false,
            rate: 0,
            color_mode: ColorMode::Monochrome,
        }
    }

    /// Running becomes paused, and paused running.
    pub open spec fn start_pause(self) -> StateView {
        StateView { running: !self.running, ..self }
    }

    /// The grid moves on one generation.
    pub open spec fn step(self) -> StateView {
        StateView { grid: next_generation(self.grid), ..self }
    }

    /// The grid moves on `count` generations, one `step` each.
    pub open spec fn steps(self, count: nat) -> StateView
        decreases count,
    {
        if count == 0 {
            self
        } else {
            self.steps((count - 1) as nat).step()
        }
    }

    /// Every cell dies.
    pub open spec fn clear(self) -> StateView {
        StateView { grid: self.grid.cleared(), ..self }
    }

    /// The grid becomes what `preset` gives for `seed`.
    pub open spec fn load(self, preset: Preset, seed: u64) -> StateView {
        StateView { grid: preset_grid(preset, seed, self.grid.width, self.grid.height), ..self }
    }

    /// The cell `(x, y)` turns over; outside the grid nothing happens.
    pub open spec fn toggle_cell(self, x: int, y: int) -> StateView {
        if self.grid.in_bounds(x, y) {
            StateView { grid: self.grid.with_cell(x, y, !self.grid.cells[x][y]), ..self }
        } else {
            self
        }
    }

    /// The rate becomes `rate`.
    pub open spec fn set_rate(self, rate: nat) -> StateView {
        StateView { rate, ..self }
    }

    /// The mode becomes `mode`, and every cell, live or dead, gets the tag
    /// that `mode` gives it.
    pub open spec fn set_color_mode(self, mode: ColorMode) -> StateView {
        StateView {
            grid: self.grid.recolored(
                |x: int, y: int| mode_tag(mode, self.grid.width as int, self.grid.height as int, x, y),
            ),
            color_mode: mode,
            ..self
        }
    }

    /// One frame: a running simulation moves on one generation, a paused
    /// one stays.
    pub open spec fn tick(self) -> StateView {
        if self.running {
            self.step()
        } else {
            self
        }
    }

    /// The milliseconds to wait before a frame: a running simulation with a
    /// rate waits the rate's share of a second, any other does not wait.
    pub open spec fn tick_delay(self) -> nat {
        if self.running && self.rate > 0 {
            1000nat / self.rate
        } else {
            0
        }
    }
}

impl State {
    /// The simulation as it opens: the standard grid, empty and paused.
    pub fn new() -> (state: State)
        ensures
            state@ == StateView::initial(GRID_WIDTH as nat, GRID_HEIGHT as nat),
            state@.grid.wf(),
    {
        State {
            grid: Grid::new(GRID_WIDTH, GRID_HEIGHT).unwrap(),
            rate: 0,
            running: false,
            color_mode: ColorMode::Monochrome,
        }
    }

    /// A simulation on an empty grid of `width` by `height`, paused, unless
    /// a dimension is zero.
    pub fn with_dimensions(width: usize, height: usize) -> (made: Result<State, SimError>)
        ensures
            width == 0 || height == 0 ==> made is Err && made->Err_0 == SimError::InvalidDimensions,
            width > 0 && height > 0 ==> made is Ok && made->Ok_0@ == StateView::initial(
                width as nat,
                height as nat,
            ),
    {
        match Grid::new(width, height) {
            Ok(grid) => Ok(State { grid, rate: 0, running: false, color_mode: ColorMode::Monochrome }),
            Err(error) => Err(error),
        }
    }

    /// The grid.
    pub fn grid(&self) -> (grid: &Grid)
        ensures
            grid@ == self@.grid,
            grid@.wf(),
    {
        let _ = self.grid.width();
        &self.grid
    }

    /// Whether the simulation runs.
    pub fn running(&self) -> (running: bool)
        ensures
            running == self@.running,
    {
        self.running
    }

    /// The generations per second; zero is no limit.
    pub fn rate(&self) -> (rate: u32)
        ensures
            rate == self@.rate,
    {
        self.rate
    }

    /// How the cells are coloured.
    pub fn color_mode(&self) -> (mode: ColorMode)
        ensures
            mode == self@.color_mode,
    {
        self.color_mode
    }
}

impl StateView {
    /// The state after `command`, where a random preset draws from `seed`.
    pub open spec fn execute(self, command: Command, seed: u64) -> StateView {
        match command {
            Command::StartPause => self.start_pause(),
            Command::Step => self.step(),
            Command::Clear => self.clear(),
            Command::LoadPreset(preset) => self.load(preset, seed),
            Command::SetRate(rate) => self.set_rate(rate as nat),
            Command::SetColorMode(mode) => self.set_color_mode(mode),
            Command::ToggleCell(x, y) => self.toggle_cell(x as int, y as int),
            Command::Quit => self,
        }
    }

    /// The state after `command`, if there is one, and the state itself if
    /// there is none.
    pub open spec fn execute_if(self, command: Option<Command>, seed: u64) -> StateView {
        match command {
            Some(command) => self.execute(command, seed),
            None => self,
        }
    }
}

/// The seed after `command`: loading a preset uses the seed up, nothing
/// else touches it.
pub open spec fn seed_after(command: Command, seed: u64) -> u64 {
    match command {
        Command::LoadPreset(_) => next_seed(seed),
        _ => seed,
    }
}

/// The seed after `command`, if there is one.
pub open spec fn seed_after_if(command: Option<Command>, seed: u64) -> u64 {
    match command {
        Some(command) => seed_after(command, seed),
        None => seed,
    }
}

/// The one owner of a simulation. The input layer hands it commands, the
/// render layer reads its grid, and a driver calls `tick` once a frame.
#[derive(Debug)]
pub struct SimulationController {
    state: State,
    library: PatternLibrary,
}

impl View for SimulationController {
    type V = StateView;

    closed spec fn view(&self) -> StateView {
        self.state@
    }
}

impl SimulationController {
    /// The seed that the next preset draws from.
    pub closed spec fn seed(&self) -> u64 {
        self.library.seed()
    }

    /// A controller of the standard simulation, whose random presets start
    /// from `seed`.
    pub fn new(seed: u64) -> (controller: SimulationController)
        ensures
            controller@ == StateView::initial(GRID_WIDTH as nat, GRID_HEIGHT as nat),
            controller@.grid.wf(),
            controller.seed() == seed,
    {
        SimulationController { state: State::new(), library: PatternLibrary::new(seed) }
    }

    /// A controller of a simulation on a grid of `width` by `height`, unless
    /// a dimension is zero.
    pub fn with_dimensions(width: usize, height: usize, seed: u64) -> (made: Result<
        SimulationController,
        SimError,
    >)
        ensures
            width == 0 || height == 0 ==> made is Err && made->Err_0 == SimError::InvalidDimensions,
            width > 0 && height > 0 ==> made is Ok && made->Ok_0@ == StateView::initial(
                width as nat,
                height as nat,
            ) && made->Ok_0.seed() == seed,
    {
        match State::with_dimensions(width, height) {
            Ok(state) => Ok(SimulationController { state, library: PatternLibrary::new(seed) }),
            Err(error) => Err(error),
        }
    }

    /// The simulation, to read.
    pub fn state(&self) -> (state: &State)
        ensures
            state@ == self@,
            self@.grid.wf(),
    {
        let _ = self.state.grid.width();
        &self.state
    }

    /// Runs a paused simulation and pauses a running one.
    pub fn start_pause(&mut self)
        ensures
            final(self)@ == old(self)@.start_pause(),
            final(self).seed() == old(self).seed(),
    {
        self.state.running = !self.state.running;
    }

    /// Advances one generation, running or not.
    pub fn step(&mut self)
        ensures
            final(self)@ == old(self)@.step(),
            final(self).seed() == old(self).seed(),
    {
        self.state.grid = RuleEngine::step(&self.state.grid);
    }

    /// Kills every cell. The size and the tags stay.
    pub fn clear(&mut self)
        ensures
            final(self)@ == old(self)@.clear(),
            final(self).seed() == old(self).seed(),
    {
        self.state.grid.clear();
    }

    /// Loads `preset` and uses the seed up.
    pub fn load(&mut self, preset: Preset)
        ensures
            final(self)@ == old(self)@.load(preset, old(self).seed()),
            final(self).seed() == next_seed(old(self).seed()),
    {
        self.state.grid = self.library.load(preset, &self.state.grid);
        self.library.advance();
    }

    /// Loads the preset registered under `name`. An unknown name is refused
    /// and leaves everything as it was.
    pub fn load_preset(&mut self, name: &str) -> (done: Result<(), SimError>)
        ensures
            preset_named(name@) is None ==> done == Err::<(), SimError>(SimError::UnknownPreset)
                && final(self)@ == old(self)@ && final(self).seed() == old(self).seed(),
            preset_named(name@) is Some ==> done == Ok::<(), SimError>(()) && final(self)@ == old(
                self,
            )@.load(preset_named(name@)->Some_0, old(self).seed()) && final(self).seed()
                == next_seed(old(self).seed()),
    {
        match Preset::from_name(name) {
            Some(preset) => {
                self.load(preset);
                Ok(())
            },
            None => Err(SimError::UnknownPreset),
        }
    }

    /// Turns the cell `(x, y)` over. Outside the grid it does nothing.
    pub fn toggle_cell(&mut self, x: usize, y: usize)
        ensures
            final(self)@ == old(self)@.toggle_cell(x as int, y as int),
            final(self).seed() == old(self).seed(),
    {
        let _ = self.state.grid.toggle(x, y);
    }

    /// Sets the generations per second; zero is no limit.
    pub fn set_rate(&mut self, rate: u32)
        ensures
            final(self)@ == old(self)@.set_rate(rate as nat),
            final(self).seed() == old(self).seed(),
    {
        self.state.rate = rate;
    }

    /// Sets the colour mode and gives every cell, live or dead, its tag
    /// under that mode.
    pub fn set_color_mode(&mut self, mode: ColorMode)
        ensures
            final(self)@ == old(self)@.set_color_mode(mode),
            final(self).seed() == old(self).seed(),
    {
        let width = self.state.grid.width();
        let height = self.state.grid.height();
        let tag_fn = |x: usize, y: usize| -> (tag: ColorTag)
            requires
                x < width,
                y < height,
            ensures
                tag == mode_tag(mode, width as int, height as int, x as int, y as int),
            { mode.tag_at(width, height, x, y) };
        self.state.grid.fill_colors(tag_fn);
        self.state.color_mode = mode;
        proof {
            let goal = old(self)@.set_color_mode(mode).grid;
            assert forall|x: int| 0 <= x < width implies #[trigger] self@.grid.colors[x]
                =~= goal.colors[x] by {
                assert forall|y: int| 0 <= y < height implies #[trigger] self@.grid.colors[x][y]
                    == goal.colors[x][y] by {
                    let a = x as usize;
                    let b = y as usize;
                    assert(call_ensures(tag_fn, (a, b), self@.grid.colors[a as int][b as int]));
                }
            }
            assert(self@.grid.colors =~= goal.colors);
        }
    }

    /// What the driver waits before a frame, in milliseconds.
    pub fn tick_delay_ms(&self) -> (delay: u64)
        ensures
            delay == self@.tick_delay(),
    {
        if self.state.running && self.state.rate != 0 {
            1000 / (self.state.rate as u64)
        } else {
            0
        }
    }

    /// One frame: a running simulation advances one generation.
    pub fn tick(&mut self)
        ensures
            final(self)@ == old(self)@.tick(),
            final(self).seed() == old(self).seed(),
    {
        if self.state.running {
            self.step();
        }
    }

    /// Carries `command` out. `Quit` is for the caller: nothing changes.
    pub fn execute(&mut self, command: Command)
        ensures
            final(self)@ == old(self)@.execute(command, old(self).seed()),
            final(self).seed() == seed_after(command, old(self).seed()),
    {
        match command {
            Command::StartPause => self.start_pause(),
            Command::Step => self.step(),
            Command::Clear => self.clear(),
            Command::LoadPreset(preset) => self.load(preset),
            Command::SetRate(rate) => self.set_rate(rate),
            Command::SetColorMode(mode) => self.set_color_mode(mode),
            Command::ToggleCell(x, y) => self.toggle_cell(x, y),
            Command::Quit => {},
        }
    }

    /// Carries out the command bound to `key` and returns it; a key without
    /// a command changes nothing.
    pub fn key_down(&mut self, key: Key) -> (command: Option<Command>)
        ensures
            command == key_command(key),
            final(self)@ == old(self)@.execute_if(command, old(self).seed()),
            final(self).seed() == seed_after_if(command, old(self).seed()),
    {
        let command = command_for_key(key);
        if let Some(found) = command {
            self.execute(found);
        }
        command
    }

    /// Carries out what a press at the pixel `(px, py)` stands for and
    /// returns it: a cell turned over, a button's command, or nothing.
    pub fn pointer_down(&mut self, px: u32, py: u32) -> (command: Option<Command>)
        ensures
            command == pointer_command(
                old(self)@.grid.width,
                old(self)@.grid.height,
                px as int,
                py as int,
            ),
            final(self)@ == old(self)@.execute_if(command, old(self).seed()),
            final(self).seed() == seed_after_if(command, old(self).seed()),
    {
        let width = self.state.grid.width();
        let height = self.state.grid.height();
        let command = command_for_pointer(width, height, px, py);
        if let Some(found) = command {
            self.execute(found);
        }
        command
    }

    /// The grid for drawing: its width, its height, and a copy of its cells
    /// and of their tags, column by column.
    pub fn grid_snapshot(&self) -> (snapshot: (usize, usize, Vec<Vec<bool>>, Vec<Vec<ColorTag>>))
        ensures
            snapshot.0 == self@.grid.width,
            snapshot.1 == self@.grid.height,
            table(snapshot.2) == self@.grid.cells,
            table(snapshot.3) == self@.grid.colors,
            self@.grid.wf(),
    {
        (
            self.state.grid.width(),
            self.state.grid.height(),
            self.state.grid.cell_table(),
            self.state.grid.color_table(),
        )
    }
}

/// Starting or pausing twice gives the state back.
pub proof fn lemma_start_pause_twice(state: StateView)
    ensures
        state.start_pause().start_pause() == state,
{
}

/// `count` steps give the grid that `count` generations give, and leave
/// the rest of the state alone.
pub proof fn lemma_steps_are_generations(state: StateView, count: nat)
    ensures
        state.steps(count).grid == generations(state.grid, count),
        state.steps(count).running == state.running,
        state.steps(count).rate == state.rate,
        state.steps(count).color_mode == state.color_mode,
    decreases count,
{
    if count > 0 {
        lemma_steps_are_generations(state, (count - 1) as nat);
    }
}

/// Clearing, loading a preset and clearing again gives the grid that a new
/// simulation of that size has.
pub proof fn lemma_clear_load_clear(state: StateView, preset: Preset, seed: u64)
    requires
        state.grid.wf(),
    ensures
        state.clear().load(preset, seed).clear().grid == GridView::fresh(
            state.grid.width,
            state.grid.height,
        ),
        state.clear().load(preset, seed).clear().running == state.running,
{
    let last = state.clear().load(preset, seed).clear().grid;
    let fresh = GridView::fresh(state.grid.width, state.grid.height);
    assert(last.cells =~~= fresh.cells);
    assert(last.colors =~~= fresh.colors);
}

/// Turning over a cell outside the grid changes nothing.
pub proof fn lemma_toggle_outside_changes_nothing(state: StateView, x: int, y: int)
    requires
        !state.grid.in_bounds(x, y),
    ensures
        state.toggle_cell(x, y) == state,
{
}

/// Turning over a cell of the grid twice gives the state back.
pub proof fn lemma_toggle_twice(state: StateView, x: int, y: int)
    requires
        state.grid.wf(),
    ensures
        state.toggle_cell(x, y).toggle_cell(x, y) == state,
{
    if state.grid.in_bounds(x, y) {
        let once = state.toggle_cell(x, y).grid;
        let twice = state.toggle_cell(x, y).toggle_cell(x, y).grid;
        assert(twice.cells[x] =~= state.grid.cells[x]);
        assert(twice.cells =~= state.grid.cells);
    }
}

} // verus!
