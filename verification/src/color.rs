use vstd::prelude::*;

verus! {

/// The display attribute of one cell: three eight-bit channels. It plays no
/// part in the rule.
#[derive(Clone, Copy, Debug, PartialEq, Eq, Structural)]
pub struct ColorTag {
    pub red: u8,
    pub green: u8,
    pub blue: u8,
}

/// How the cells are coloured.
#[derive(Clone, Copy, Debug, PartialEq, Eq, Structural)]
pub enum ColorMode {
    /// Every cell black.
    Monochrome,
    /// Every cell the colour given.
    Solid(ColorTag),
    /// Red grows with the column, green with the row, blue with their sum.
    Gradient,
}

/// The tag that a new grid gives every cell.
pub open spec fn default_tag() -> ColorTag {
    ColorTag { red: 0, green: 0, blue: 0 }
}

/// `part / whole`, as a channel: its 255th parts, rounded down.
pub open spec fn channel(part: int, whole: int) -> u8 {
    (255 * part / whole) as u8
}

/// The gradient's tag at `(x, y)` in a grid of `width` by `height`.
pub open spec fn gradient_tag(width: int, height: int, x: int, y: int) -> ColorTag {
    ColorTag {
        red: channel(x, width),
        green: channel(y, height),
        blue: channel(x + y, width + height),
    }
}

/// The tag that `mode` gives the cell `(x, y)` of a grid of `width` by
/// `height`.
pub open spec fn mode_tag(mode: ColorMode, width: int, height: int, x: int, y: int) -> ColorTag {
    match mode {
        ColorMode::Monochrome => default_tag(),
        ColorMode::Solid(tag) => tag,
        ColorMode::Gradient => gradient_tag(width, height, x, y),
    }
}

impl ColorTag {
    /// Black, the default tag.
    pub fn black() -> (tag: ColorTag)
        ensures
            tag == default_tag(),
    {
        ColorTag { red: 0, green: 0, blue: 0 }
    }

    /// Pure red.
    pub fn red() -> (tag: ColorTag)
        ensures
            tag == (ColorTag { red: 255, green: 0, blue: 0 }),
    {
        ColorTag { red: 255, green: 0, blue: 0 }
    }
}

/// Computes `channel(part, whole)` without overflow.
fn scale(part: usize, whole: usize) -> (level: u8)
    requires
        part <= whole,
        whole > 0,
    ensures
        level == channel(part as int, whole as int),
{
    let wide: u128 = 255u128 * (part as u128);
    let level: u128 = wide / (whole as u128);
    assert(level <= 255) by (nonlinear_arith)
        requires
            level == (255 * part) / (whole as int),
            part <= whole,
            whole > 0,
    ;
    level as u8
}

impl ColorMode {
    /// The tag of the cell `(x, y)` in a grid of `width` by `height`.
    pub fn tag_at(&self, width: usize, height: usize, x: usize, y: usize) -> (tag: ColorTag)
        requires
            x < width,
            y < height,
        ensures
            tag == mode_tag(*self, width as int, height as int, x as int, y as int),
    {
        match self {
            ColorMode::Monochrome => ColorTag::black(),
            ColorMode::Solid(tag) => *tag,
            ColorMode::Gradient => {
                let red: u8 = scale(x, width);
                let green: u8 = scale(y, height);
                let blue: u8 = scale_sum(x, y, width, height);
                ColorTag { red, green, blue }
            },
        }
    }
}

/// Computes `channel(x + y, width + height)` without overflow.
fn scale_sum(x: usize, y: usize, width: usize, height: usize) -> (level: u8)
    requires
        x < width,
        y < height,
    ensures
        level == channel(x + y, width + height),
{
    let part: u128 = (x as u128) + (y as u128);
    let whole: u128 = (width as u128) + (height as u128);
    let level: u128 = 255u128 * part / whole;
    assert(level <= 255) by (nonlinear_arith)
        requires
            level == (255 * part) / (whole as int),
            part <= whole,
            whole > 0,
    ;
    level as u8
}

} // verus!
