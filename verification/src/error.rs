use vstd::prelude::*;

verus! {

/// What a command can fail with.
#[derive(Clone, Copy, Debug, PartialEq, Eq, Structural)]
pub enum SimError {
    /// A grid was asked for with a width or a height of zero.
    InvalidDimensions,
    /// A cell outside the grid was addressed.
    OutOfBounds,
    /// No preset is registered under the name given.
    UnknownPreset,
}

} // verus!
