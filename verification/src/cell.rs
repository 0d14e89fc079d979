//! The styled atomic unit of a grid, and the palette the chessboard uses.

use vstd::prelude::*;

verus! {

/// The glyph of a cell that holds nothing.
pub const BLANK: char = ' ';

/// A glyph with a foreground and a background colour, both indices into the
/// terminal's 8-bit palette.
#[derive(Clone, Copy, Debug, PartialEq, Eq, Structural)]
pub struct Cell {
    pub glyph: char,
    pub foreground: u8,
    pub background: u8,
}

impl Cell {
    pub fn new(glyph: char, foreground: u8, background: u8) -> (cell: Cell)
        ensures
            cell == (Cell { glyph, foreground, background }),
    {
        Cell { glyph, foreground, background }
    }

    /// A cell is empty when its glyph is the blank.
    pub open spec fn empty(self) -> bool {
        self.glyph == BLANK
    }

    #[verifier::when_used_as_spec(empty)]
    pub fn is_empty(self) -> (b: bool)
        ensures
            b == self.empty(),
    {
        self.glyph == BLANK
    }

    /// The same cell on another background.
    pub open spec fn on(self, background: u8) -> Cell {
        Cell { glyph: self.glyph, foreground: self.foreground, background }
    }

    /// The same colours around another glyph.
    pub open spec fn holding(self, glyph: char) -> Cell {
        Cell { glyph, foreground: self.foreground, background: self.background }
    }
}

/// The palette entries the chessboard is painted with.
#[derive(Clone, Copy, Debug, PartialEq, Eq, Structural)]
pub enum AnsiColor {
    White,
    Dark,
    Grey,
    Blue,
}

impl AnsiColor {
    pub open spec fn spec_code(self) -> u8 {
        match self {
            AnsiColor::White => 0,
            AnsiColor::Dark => 7,
            AnsiColor::Grey => 23,
            AnsiColor::Blue => 33,
        }
    }

    /// The index of this colour in the 8-bit palette.
    #[verifier::when_used_as_spec(spec_code)]
    pub fn code(self) -> (c: u8)
        ensures
            c == self.spec_code(),
    {
        match self {
            AnsiColor::White => 0,
            AnsiColor::Dark => 7,
            AnsiColor::Grey => 23,
            AnsiColor::Blue => 33,
        }
    }
}

} // verus!
