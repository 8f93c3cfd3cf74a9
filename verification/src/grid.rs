//! The fixed character grid the game is played on: integer points, RGB
//! colors, and the draw command handed to the display surface.

use vstd::prelude::*;

verus! {

/// Width of the playing field, in cells.
pub const SCREEN_WIDTH: i32 = 80;

/// Height of the playing field, in cells.
pub const SCREEN_HEIGHT: i32 = 50;

/// How many cells the playing field has in all.
pub const GRID_CELLS: i32 = 4000;

/// An integer 2D coordinate. Used both for grid positions and for the four
/// unit direction vectors.
#[derive(Clone, Copy, PartialEq, Eq, Structural, Debug)]
pub struct Point {
    pub x: i32,
    pub y: i32,
}

/// True when `p` lies on the playing field.
pub open spec fn in_grid(p: Point) -> bool {
    0 <= p.x < SCREEN_WIDTH && 0 <= p.y < SCREEN_HEIGHT
}

/// An RGB color handed to the display surface.
#[derive(Clone, Copy, PartialEq, Eq, Structural, Debug)]
pub struct Rgb {
    pub r: u8,
    pub g: u8,
    pub b: u8,
}

pub open spec fn spec_black() -> Rgb {
    Rgb { r: 0, g: 0, b: 0 }
}

/// The default background color.
#[verifier::when_used_as_spec(spec_black)]
pub fn black() -> (c: Rgb)
    ensures
        c == spec_black(),
{
    Rgb { r: 0, g: 0, b: 0 }
}

pub open spec fn spec_white() -> Rgb {
    Rgb { r: 255, g: 255, b: 255 }
}

/// The foreground color of every glyph.
#[verifier::when_used_as_spec(spec_white)]
pub fn white() -> (c: Rgb)
    ensures
        c == spec_white(),
{
    Rgb { r: 255, g: 255, b: 255 }
}

pub open spec fn spec_greenyellow() -> Rgb {
    Rgb { r: 173, g: 255, b: 47 }
}

/// The highlight background shown briefly after the snake eats.
#[verifier::when_used_as_spec(spec_greenyellow)]
pub fn greenyellow() -> (c: Rgb)
    ensures
        c == spec_greenyellow(),
{
    Rgb { r: 173, g: 255, b: 47 }
}

/// One draw command: put `glyph` at `pos` with the given colors. The
/// verified code emits these; the display surface executes them.
#[derive(Clone, Copy, PartialEq, Eq, Structural, Debug)]
pub struct Cell {
    pub pos: Point,
    pub fg: Rgb,
    pub bg: Rgb,
    pub glyph: char,
}

} // verus!
