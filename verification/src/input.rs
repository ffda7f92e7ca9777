use vstd::prelude::*;
use crate::color::{ColorMode, ColorTag};
use crate::patterns::Preset;

verus! {

/// The side of one cell on the screen, in pixels.
pub const CELL_SIZE: usize = 20;

/// The number of columns of the grid that the simulator opens with.
pub const GRID_WIDTH: usize = 43;

/// The number of rows of the grid that the simulator opens with.
pub const GRID_HEIGHT: usize = 43;

/// The height of the control panel below the grid, in cells.
pub const MENU_ROWS: usize = 5;

/// The width of a button of the control panel, in pixels.
pub const BUTTON_WIDTH: usize = 5 * CELL_SIZE;

/// The height of a button of the control panel, in pixels.
pub const BUTTON_HEIGHT: usize = 2 * CELL_SIZE;

/// What the controller can be asked to do.
#[derive(Clone, Copy, Debug, PartialEq, Eq, Structural)]
pub enum Command {
    /// Run if paused, pause if running.
    StartPause,
    /// Advance one generation.
    Step,
    /// Kill every cell.
    Clear,
    /// Load a preset.
    LoadPreset(Preset),
    /// Set the generations per second; zero is no limit.
    SetRate(u32),
    /// Colour the cells anew.
    SetColorMode(ColorMode),
    /// Turn one cell over.
    ToggleCell(usize, usize),
    /// Leave the simulator. The controller itself does nothing on it.
    Quit,
}

/// The keys that the simulator reads.
#[derive(Clone, Copy, Debug, PartialEq, Eq, Structural)]
pub enum Key {
    Space,
    N,
    C,
    Escape,
    Digit1,
    Digit2,
    Digit3,
    Digit4,
    Digit5,
    Digit6,
    Digit7,
    Digit8,
    Digit9,
    Other,
}

/// The command bound to each key.
pub open spec fn key_command(key: Key) -> Option<Command> {
    match key {
        Key::Space => Some(Command::StartPause),
        Key::N => Some(Command::Step),
        Key::C => Some(Command::Clear),
        Key::Escape => Some(Command::Quit),
        Key::Digit1 => Some(Command::LoadPreset(Preset::First)),
        Key::Digit2 => Some(Command::LoadPreset(Preset::Second)),
        Key::Digit3 => Some(Command::LoadPreset(Preset::Random)),
        Key::Digit4 => Some(Command::SetRate(0)),
        Key::Digit5 => Some(Command::SetRate(1)),
        Key::Digit6 => Some(Command::SetRate(4)),
        Key::Digit7 => Some(Command::SetColorMode(ColorMode::Monochrome)),
        Key::Digit8 => Some(Command::SetColorMode(ColorMode::Gradient)),
        Key::Digit9 => Some(
            Command::SetColorMode(ColorMode::Solid(ColorTag { red: 255, green: 0, blue: 0 })),
        ),
        Key::Other => None,
    }
}

/// The command that a key stands for, if it stands for one.
pub fn command_for_key(key: Key) -> (command: Option<Command>)
    ensures
        command == key_command(key),
{
    match key {
        Key::Space => Some(Command::StartPause),
        Key::N => Some(Command::Step),
        Key::C => Some(Command::Clear),
        Key::Escape => Some(Command::Quit),
        Key::Digit1 => Some(Command::LoadPreset(Preset::First)),
        Key::Digit2 => Some(Command::LoadPreset(Preset::Second)),
        Key::Digit3 => Some(Command::LoadPreset(Preset::Random)),
        Key::Digit4 => Some(Command::SetRate(0)),
        Key::Digit5 => Some(Command::SetRate(1)),
        Key::Digit6 => Some(Command::SetRate(4)),
        Key::Digit7 => Some(Command::SetColorMode(ColorMode::Monochrome)),
        Key::Digit8 => Some(Command::SetColorMode(ColorMode::Gradient)),
        Key::Digit9 => Some(Command::SetColorMode(ColorMode::Solid(ColorTag::red()))),
        Key::Other => None,
    }
}

/// Whether the pixel column `px` lies on the button whose left edge is
/// `offset` pixels right of the first button's, in a window `width` cells
/// wide. The first button begins two button widths left of the middle. Both
/// edges belong to the button.
pub open spec fn on_button(width: nat, offset: int, px: int) -> bool {
    let left = width * CELL_SIZE / 2 - 2 * BUTTON_WIDTH + offset;
    left <= px <= left + BUTTON_WIDTH
}

/// The command that a press at the pixel `(px, py)` stands for, over a grid
/// of `width` by `height` cells with the control panel below it.
///
/// A press over the grid turns over the cell under it. A press on the top
/// strip of the panel, one button high, is the button's command. Any other
/// press is nothing.
pub open spec fn pointer_command(width: nat, height: nat, px: int, py: int) -> Option<Command> {
    let top = height * CELL_SIZE;
    if py < top {
        if px < width * CELL_SIZE {
            Some(Command::ToggleCell((px / CELL_SIZE as int) as usize, (py / CELL_SIZE as int) as usize))
        } else {
            None
        }
    } else if py <= top + BUTTON_HEIGHT {
        if on_button(width, 0, px) {
            Some(Command::StartPause)
        } else if on_button(width, 2 * BUTTON_WIDTH, px) {
            Some(Command::Step)
        } else if on_button(width, 4 * BUTTON_WIDTH, px) {
            Some(Command::Clear)
        } else {
            None
        }
    } else {
        None
    }
}

/// Whether `px` lies on the button at `offset`, computed without a
/// subtraction.
fn hits_button(width: usize, offset: usize, px: u32) -> (hit: bool)
    requires
        offset <= 4 * BUTTON_WIDTH,
    ensures
        hit == on_button(width as nat, offset as int, px as int),
{
    let middle: u128 = (width as u128) * (CELL_SIZE as u128) / 2;
    let place: u128 = (px as u128) + 2 * (BUTTON_WIDTH as u128);
    let left: u128 = middle + (offset as u128);
    left <= place && place <= left + (BUTTON_WIDTH as u128)
}

/// The command that a press at the pixel `(px, py)` stands for.
pub fn command_for_pointer(width: usize, height: usize, px: u32, py: u32) -> (command: Option<
    Command,
>)
    ensures
        command == pointer_command(width as nat, height as nat, px as int, py as int),
{
    let top: u128 = (height as u128) * (CELL_SIZE as u128);
    let right: u128 = (width as u128) * (CELL_SIZE as u128);
    if (py as u128) < top {
        if (px as u128) < right {
            Some(Command::ToggleCell((px as usize) / CELL_SIZE, (py as usize) / CELL_SIZE))
        } else {
            None
        }
    } else if (py as u128) <= top + (BUTTON_HEIGHT as u128) {
        if hits_button(width, 0, px) {
            Some(Command::StartPause)
        } else if hits_button(width, 2 * BUTTON_WIDTH, px) {
            Some(Command::Step)
        } else if hits_button(width, 4 * BUTTON_WIDTH, px) {
            Some(Command::Clear)
        } else {
            None
        }
    } else {
        None
    }
}

} // verus!
