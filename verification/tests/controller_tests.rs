use life_sim::{
    command_for_key, command_for_pointer, ColorMode, ColorTag, Command, Grid, Key, Preset,
    RuleEngine, SimError, SimulationController, State, BUTTON_HEIGHT, BUTTON_WIDTH, CELL_SIZE,
    GRID_HEIGHT, GRID_WIDTH, MENU_ROWS,
};

const BLACK: ColorTag = ColorTag { red: 0, green: 0, blue: 0 };
const RED: ColorTag = ColorTag { red: 255, green: 0, blue: 0 };

fn live(controller: &SimulationController) -> Vec<(usize, usize)> {
    controller.state().grid().live_cells()
}

#[test]
fn layout_constants() {
    assert_eq!(CELL_SIZE, 20);
    assert_eq!((GRID_WIDTH, GRID_HEIGHT), (43, 43));
    assert_eq!(MENU_ROWS, 5);
    assert_eq!(BUTTON_WIDTH, 100);
    assert_eq!(BUTTON_HEIGHT, 40);
}

#[test]
fn new_state_is_empty_and_paused() {
    let state = State::new();
    assert_eq!((state.grid().width(), state.grid().height()), (43, 43));
    assert!(state.grid().live_cells().is_empty());
    assert!(!state.running());
    assert_eq!(state.rate(), 0);
    assert_eq!(state.color_mode(), ColorMode::Monochrome);
    assert_eq!(state.grid().color(42, 42), Ok(BLACK));
}

#[test]
fn state_with_dimensions() {
    let state = State::with_dimensions(3, 7).unwrap();
    assert_eq!((state.grid().width(), state.grid().height()), (3, 7));
    assert!(!state.running());
    assert_eq!(State::with_dimensions(0, 7).err(), Some(SimError::InvalidDimensions));
    assert_eq!(State::with_dimensions(3, 0).err(), Some(SimError::InvalidDimensions));
}

#[test]
fn controller_with_dimensions() {
    let controller = SimulationController::with_dimensions(5, 6, 1).unwrap();
    assert_eq!(controller.grid_snapshot().0, 5);
    assert_eq!(controller.grid_snapshot().1, 6);
    assert_eq!(
        SimulationController::with_dimensions(0, 0, 1).err(),
        Some(SimError::InvalidDimensions)
    );
}

#[test]
fn start_pause_twice_returns() {
    let mut controller = SimulationController::new(0);
    assert!(!controller.state().running());
    controller.start_pause();
    assert!(controller.state().running());
    controller.start_pause();
    assert!(!controller.state().running());
}

#[test]
fn step_n_times_is_n_generations() {
    let mut controller = SimulationController::new(3);
    controller.load_preset("random").unwrap();
    let mut grid = controller.state().grid().clone();
    for _ in 0..5 {
        controller.step();
        grid = RuleEngine::step(&grid);
    }
    assert_eq!(live(&controller), grid.live_cells());
    assert!(!controller.state().running());
}

#[test]
fn step_works_paused_and_running() {
    let mut controller = SimulationController::with_dimensions(5, 5, 0).unwrap();
    for y in 1..4 {
        controller.toggle_cell(1, y);
    }
    controller.step();
    assert_eq!(live(&controller), vec![(0, 2), (1, 2), (2, 2)]);
    controller.start_pause();
    controller.step();
    assert_eq!(live(&controller), vec![(1, 1), (1, 2), (1, 3)]);
    assert!(controller.state().running());
}

#[test]
fn clear_load_clear_is_a_new_grid() {
    let mut controller = SimulationController::new(0);
    controller.toggle_cell(7, 7);
    controller.set_color_mode(ColorMode::Gradient);
    controller.clear();
    controller.load_preset("A").unwrap();
    assert_eq!(live(&controller).len(), 26);
    controller.clear();
    let fresh = Grid::new(43, 43).unwrap();
    let snapshot = controller.grid_snapshot();
    assert_eq!(snapshot.0, fresh.width());
    assert_eq!(snapshot.1, fresh.height());
    assert_eq!(snapshot.2, fresh.cell_table());
    assert_eq!(snapshot.3, fresh.color_table());
}

#[test]
fn clear_keeps_size_flag_and_tags() {
    let mut controller = SimulationController::with_dimensions(4, 3, 0).unwrap();
    controller.start_pause();
    controller.set_color_mode(ColorMode::Solid(RED));
    controller.toggle_cell(1, 1);
    controller.clear();
    assert!(live(&controller).is_empty());
    assert!(controller.state().running());
    assert_eq!(controller.state().grid().color(1, 1), Ok(RED));
    assert_eq!(controller.grid_snapshot().0, 4);
    assert_eq!(controller.grid_snapshot().1, 3);
}

#[test]
fn load_preset_unknown_leaves_the_grid() {
    let mut controller = SimulationController::new(0);
    controller.toggle_cell(3, 4);
    controller.start_pause();
    assert_eq!(controller.load_preset("nope"), Err(SimError::UnknownPreset));
    assert_eq!(live(&controller), vec![(3, 4)]);
    assert!(controller.state().running());
}

#[test]
fn load_preset_keeps_the_flag() {
    let mut controller = SimulationController::new(0);
    controller.start_pause();
    assert_eq!(controller.load_preset("B"), Ok(()));
    assert_eq!(live(&controller).len(), 41);
    assert!(controller.state().running());
}

#[test]
fn load_random_twice_draws_afresh() {
    let mut controller = SimulationController::new(12);
    controller.load_preset("random").unwrap();
    let first = live(&controller);
    controller.load_preset("random").unwrap();
    let second = live(&controller);
    assert!(!first.is_empty() && first.len() <= 500);
    assert!(!second.is_empty() && second.len() <= 500);
    assert_ne!(first, second);
    let mut again = SimulationController::new(12);
    again.load(Preset::Random);
    assert_eq!(live(&again), first);
    again.load(Preset::Random);
    assert_eq!(live(&again), second);
}

#[test]
fn toggle_cell_outside_is_ignored() {
    let mut controller = SimulationController::new(0);
    controller.toggle_cell(5, 5);
    let before = controller.grid_snapshot();
    controller.toggle_cell(43, 0);
    controller.toggle_cell(0, 43);
    controller.toggle_cell(usize::MAX, usize::MAX);
    assert_eq!(controller.grid_snapshot(), before);
    assert_eq!(live(&controller), vec![(5, 5)]);
}

#[test]
fn toggle_cell_turns_over() {
    let mut controller = SimulationController::new(0);
    controller.toggle_cell(42, 42);
    assert_eq!(live(&controller), vec![(42, 42)]);
    controller.toggle_cell(42, 42);
    assert!(live(&controller).is_empty());
}

#[test]
fn set_rate_and_tick_delay() {
    let mut controller = SimulationController::new(0);
    controller.set_rate(4);
    assert_eq!(controller.state().rate(), 4);
    assert_eq!(controller.tick_delay_ms(), 0);
    controller.start_pause();
    assert_eq!(controller.tick_delay_ms(), 250);
    controller.set_rate(1);
    assert_eq!(controller.tick_delay_ms(), 1000);
    controller.set_rate(3);
    assert_eq!(controller.tick_delay_ms(), 333);
    controller.set_rate(2000);
    assert_eq!(controller.tick_delay_ms(), 0);
    controller.set_rate(0);
    assert_eq!(controller.tick_delay_ms(), 0);
}

#[test]
fn tick_advances_only_when_running() {
    let mut controller = SimulationController::with_dimensions(5, 5, 0).unwrap();
    for y in 1..4 {
        controller.toggle_cell(1, y);
    }
    controller.tick();
    assert_eq!(live(&controller), vec![(1, 1), (1, 2), (1, 3)]);
    controller.start_pause();
    controller.tick();
    assert_eq!(live(&controller), vec![(0, 2), (1, 2), (2, 2)]);
    controller.set_rate(4);
    controller.tick();
    assert_eq!(live(&controller), vec![(1, 1), (1, 2), (1, 3)]);
    controller.start_pause();
    controller.tick();
    assert_eq!(live(&controller), vec![(1, 1), (1, 2), (1, 3)]);
}

#[test]
fn color_mode_monochrome_and_solid() {
    let mut controller = SimulationController::with_dimensions(3, 3, 0).unwrap();
    let custom = ColorTag { red: 10, green: 20, blue: 30 };
    controller.toggle_cell(1, 1);
    controller.set_color_mode(ColorMode::Solid(custom));
    assert_eq!(controller.state().color_mode(), ColorMode::Solid(custom));
    for x in 0..3 {
        for y in 0..3 {
            assert_eq!(controller.state().grid().color(x, y), Ok(custom));
        }
    }
    assert_eq!(live(&controller), vec![(1, 1)]);
    controller.set_color_mode(ColorMode::Monochrome);
    assert_eq!(controller.state().color_mode(), ColorMode::Monochrome);
    assert_eq!(controller.state().grid().color(2, 2), Ok(BLACK));
}

#[test]
fn color_mode_gradient_values() {
    let mut controller = SimulationController::new(0);
    controller.set_color_mode(ColorMode::Gradient);
    let grid = controller.state().grid();
    assert_eq!(grid.color(0, 0), Ok(BLACK));
    assert_eq!(grid.color(10, 20), Ok(ColorTag { red: 59, green: 118, blue: 88 }));
    assert_eq!(grid.color(42, 0), Ok(ColorTag { red: 249, green: 0, blue: 124 }));
    assert_eq!(grid.color(42, 42), Ok(ColorTag { red: 249, green: 249, blue: 249 }));
    assert_eq!(ColorMode::Gradient.tag_at(2, 4, 1, 3), ColorTag { red: 127, green: 191, blue: 170 });
    assert_eq!(ColorMode::Solid(RED).tag_at(2, 4, 1, 3), RED);
    assert_eq!(ColorMode::Monochrome.tag_at(2, 4, 1, 3), BLACK);
    assert_eq!(ColorTag::black(), BLACK);
    assert_eq!(ColorTag::red(), RED);
}

#[test]
fn gradient_tags_survive_steps() {
    let mut controller = SimulationController::with_dimensions(5, 5, 0).unwrap();
    controller.set_color_mode(ColorMode::Gradient);
    let tags = controller.grid_snapshot().3;
    for y in 1..4 {
        controller.toggle_cell(1, y);
    }
    controller.step();
    assert_eq!(controller.grid_snapshot().3, tags);
    assert_eq!(controller.state().color_mode(), ColorMode::Gradient);
}

#[test]
fn grid_snapshot_reads_the_grid() {
    let mut controller = SimulationController::with_dimensions(2, 3, 0).unwrap();
    controller.toggle_cell(1, 2);
    let (width, height, cells, colors) = controller.grid_snapshot();
    assert_eq!((width, height), (2, 3));
    assert_eq!(cells, vec![vec![false, false, false], vec![false, false, true]]);
    assert_eq!(colors, vec![vec![BLACK; 3]; 2]);
}

#[test]
fn keys_and_their_commands() {
    assert_eq!(command_for_key(Key::Space), Some(Command::StartPause));
    assert_eq!(command_for_key(Key::N), Some(Command::Step));
    assert_eq!(command_for_key(Key::C), Some(Command::Clear));
    assert_eq!(command_for_key(Key::Escape), Some(Command::Quit));
    assert_eq!(command_for_key(Key::Digit1), Some(Command::LoadPreset(Preset::First)));
    assert_eq!(command_for_key(Key::Digit2), Some(Command::LoadPreset(Preset::Second)));
    assert_eq!(command_for_key(Key::Digit3), Some(Command::LoadPreset(Preset::Random)));
    assert_eq!(command_for_key(Key::Digit4), Some(Command::SetRate(0)));
    assert_eq!(command_for_key(Key::Digit5), Some(Command::SetRate(1)));
    assert_eq!(command_for_key(Key::Digit6), Some(Command::SetRate(4)));
    assert_eq!(
        command_for_key(Key::Digit7),
        Some(Command::SetColorMode(ColorMode::Monochrome))
    );
    assert_eq!(command_for_key(Key::Digit8), Some(Command::SetColorMode(ColorMode::Gradient)));
    assert_eq!(command_for_key(Key::Digit9), Some(Command::SetColorMode(ColorMode::Solid(RED))));
    assert_eq!(command_for_key(Key::Other), None);
}

#[test]
fn key_down_carries_the_command_out() {
    let mut controller = SimulationController::new(0);
    assert_eq!(controller.key_down(Key::Space), Some(Command::StartPause));
    assert!(controller.state().running());
    assert_eq!(controller.key_down(Key::Digit6), Some(Command::SetRate(4)));
    assert_eq!(controller.state().rate(), 4);
    assert_eq!(controller.key_down(Key::Digit1), Some(Command::LoadPreset(Preset::First)));
    assert_eq!(live(&controller).len(), 26);
    assert_eq!(controller.key_down(Key::Digit9), Some(Command::SetColorMode(ColorMode::Solid(RED))));
    assert_eq!(controller.state().grid().color(0, 0), Ok(RED));
    assert_eq!(controller.key_down(Key::C), Some(Command::Clear));
    assert!(live(&controller).is_empty());
    let before = controller.grid_snapshot();
    assert_eq!(controller.key_down(Key::Escape), Some(Command::Quit));
    assert_eq!(controller.key_down(Key::Other), None);
    assert_eq!(controller.grid_snapshot(), before);
    assert!(controller.state().running());
}

#[test]
fn pointer_over_the_grid_is_a_cell() {
    assert_eq!(command_for_pointer(43, 43, 0, 0), Some(Command::ToggleCell(0, 0)));
    assert_eq!(command_for_pointer(43, 43, 25, 45), Some(Command::ToggleCell(1, 2)));
    assert_eq!(command_for_pointer(43, 43, 19, 20), Some(Command::ToggleCell(0, 1)));
    assert_eq!(command_for_pointer(43, 43, 859, 859), Some(Command::ToggleCell(42, 42)));
    assert_eq!(command_for_pointer(43, 43, 860, 10), None);
    assert_eq!(command_for_pointer(43, 43, u32::MAX, 10), None);
}

#[test]
fn pointer_on_the_panel_is_a_button() {
    assert_eq!(command_for_pointer(43, 43, 230, 860), Some(Command::StartPause));
    assert_eq!(command_for_pointer(43, 43, 330, 900), Some(Command::StartPause));
    assert_eq!(command_for_pointer(43, 43, 229, 880), None);
    assert_eq!(command_for_pointer(43, 43, 331, 880), None);
    assert_eq!(command_for_pointer(43, 43, 430, 860), Some(Command::Step));
    assert_eq!(command_for_pointer(43, 43, 530, 900), Some(Command::Step));
    assert_eq!(command_for_pointer(43, 43, 531, 880), None);
    assert_eq!(command_for_pointer(43, 43, 630, 870), Some(Command::Clear));
    assert_eq!(command_for_pointer(43, 43, 730, 870), Some(Command::Clear));
    assert_eq!(command_for_pointer(43, 43, 731, 870), None);
    assert_eq!(command_for_pointer(43, 43, 280, 901), None);
    assert_eq!(command_for_pointer(43, 43, 280, 959), None);
    assert_eq!(command_for_pointer(43, 43, 280, u32::MAX), None);
}

#[test]
fn pointer_on_a_narrow_window() {
    assert_eq!(command_for_pointer(10, 10, 0, 200), Some(Command::StartPause));
    assert_eq!(command_for_pointer(10, 10, 1, 200), None);
    assert_eq!(command_for_pointer(10, 10, 100, 200), Some(Command::Step));
    assert_eq!(command_for_pointer(10, 10, 300, 240), Some(Command::Clear));
    assert_eq!(command_for_pointer(10, 10, 150, 150), Some(Command::ToggleCell(7, 7)));
}

#[test]
fn pointer_down_carries_the_command_out() {
    let mut controller = SimulationController::new(0);
    assert_eq!(controller.pointer_down(25, 45), Some(Command::ToggleCell(1, 2)));
    assert_eq!(live(&controller), vec![(1, 2)]);
    assert_eq!(controller.pointer_down(250, 870), Some(Command::StartPause));
    assert!(controller.state().running());
    assert_eq!(controller.pointer_down(450, 870), Some(Command::Step));
    assert!(live(&controller).is_empty());
    controller.pointer_down(100, 100);
    assert_eq!(controller.pointer_down(650, 870), Some(Command::Clear));
    assert!(live(&controller).is_empty());
    assert_eq!(controller.pointer_down(10, 950), None);
    assert!(controller.state().running());
}

#[test]
fn execute_each_command() {
    let mut controller = SimulationController::with_dimensions(5, 5, 0).unwrap();
    controller.execute(Command::ToggleCell(1, 1));
    controller.execute(Command::ToggleCell(1, 2));
    controller.execute(Command::ToggleCell(1, 3));
    controller.execute(Command::ToggleCell(5, 5));
    controller.execute(Command::Step);
    assert_eq!(live(&controller), vec![(0, 2), (1, 2), (2, 2)]);
    controller.execute(Command::Quit);
    assert_eq!(live(&controller), vec![(0, 2), (1, 2), (2, 2)]);
    controller.execute(Command::SetRate(9));
    controller.execute(Command::StartPause);
    assert_eq!(controller.tick_delay_ms(), 111);
    controller.execute(Command::SetColorMode(ColorMode::Gradient));
    assert_eq!(controller.state().grid().color(4, 4), Ok(ColorTag { red: 204, green: 204, blue: 204 }));
    controller.execute(Command::LoadPreset(Preset::First));
    assert_eq!(live(&controller), vec![(1, 2), (2, 3), (3, 2), (3, 3), (4, 2)]);
    assert_eq!(controller.state().grid().color(4, 4), Ok(BLACK));
    controller.execute(Command::Clear);
    assert!(live(&controller).is_empty());
}
