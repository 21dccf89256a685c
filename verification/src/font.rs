//! Text metrics of the control font.
use vstd::prelude::*;

verus! {

/// Width of a dialog base cell in pixels.
pub const CELL_WIDTH: i32 = 8;

/// Height of a dialog base cell in pixels.
pub const CELL_HEIGHT: i32 = 16;

/// Metrics of the font that controls measure and paint with, as the host font
/// system reports them.
#[derive(Debug, Clone)]
pub struct FontEngine {
    /// Height of a text row in pixels.
    pub line_height: i32,
    /// Advance of a character that `advances` does not list.
    pub default_advance: i32,
    /// Advance of character `c` at index `c`.
    pub advances: Vec<i32>,
}

impl FontEngine {
    /// The advance of `c` in pixels; a negative table entry counts as 0.
    pub open spec fn advance(&self, c: char) -> nat {
        let raw = if 0 <= (c as int) < self.advances@.len() {
            self.advances@[c as int]
        } else {
            self.default_advance
        };
        if raw < 0 {
            0
        } else {
            raw as nat
        }
    }

    /// The advance of `c` in pixels.
    pub fn char_advance(&self, c: char) -> (pixels: i32)
        ensures
            pixels == self.advance(c),
    {
        let index: u32 = c as u32;
        let raw: i32 = if (index as u64) < self.advances.len() as u64 {
            self.advances[index as usize]
        } else {
            self.default_advance
        };
        if raw < 0 {
            0
        } else {
            raw
        }
    }

    /// A fixed-pitch font.
    pub fn fixed(advance: i32, line_height: i32) -> (font: Self)
        requires
            advance >= 0,
        ensures
            font.line_height == line_height,
            forall|c: char| #[trigger] font.advance(c) == advance,
    {
        FontEngine { line_height, default_advance: advance, advances: Vec::new() }
    }

    /// The metrics in use before a font is resolved: the dialog base cell.
    pub open spec fn is_initial(&self) -> bool {
        &&& self.line_height == CELL_HEIGHT
        &&& self.default_advance == CELL_WIDTH
        &&& self.advances@ == Seq::<i32>::empty()
    }
}

impl Default for FontEngine {
    fn default() -> (font: Self)
        ensures
            font.is_initial(),
    {
        FontEngine { line_height: CELL_HEIGHT, default_advance: CELL_WIDTH, advances: Vec::new() }
    }
}

} // verus!
