//! A bounded Game of Life: the grid, the neighbour count, the generation
//! rule, the presets and the controller that an input and render layer
//! drives. Every function is verified against the model that its module
//! states.
pub mod color;
pub mod controller;
pub mod error;
pub mod grid;
pub mod input;
pub mod neighbors;
pub mod patterns;
pub mod random;
pub mod rules;

pub use color::{ColorMode, ColorTag};
pub use controller::{SimulationController, State};
pub use error::SimError;
pub use grid::Grid;
pub use input::{
    command_for_key, command_for_pointer, Command, Key, BUTTON_HEIGHT, BUTTON_WIDTH, CELL_SIZE,
    GRID_HEIGHT, GRID_WIDTH, MENU_ROWS,
};
pub use neighbors::count_live_neighbors;
pub use patterns::{plant, PatternLibrary, Preset, RANDOM_DRAWS};
pub use rules::RuleEngine;
