//! The control sequences that paint a terminal, as `termion` spells them.
//!
//! Each function here asks `termion` for one sequence and states, without
//! proof, the characters that the crate's source spells out for it.

use vstd::prelude::*;

verus! {

/// The character for a decimal digit.
pub open spec fn digit(d: nat) -> char {
    if d == 0 {
        '0'
    } else if d == 1 {
        '1'
    } else if d == 2 {
        '2'
    } else if d == 3 {
        '3'
    } else if d == 4 {
        '4'
    } else if d == 5 {
        '5'
    } else if d == 6 {
        '6'
    } else if d == 7 {
        '7'
    } else if d == 8 {
        '8'
    } else {
        '9'
    }
}

/// A number in decimal, without leading zeros.
pub open spec fn decimal(n: nat) -> Seq<char>
    decreases n,
{
    if n < 10 {
        seq![digit(n)]
    } else {
        decimal(n / 10).push(digit(n % 10))
    }
}

/// The two characters that introduce a control sequence.
pub open spec fn csi() -> Seq<char> {
    seq!['\x1b', '[']
}

/// Erases the whole screen.
pub open spec fn clear_all_text() -> Seq<char> {
    csi() + seq!['2', 'J']
}

/// Hides the cursor.
pub open spec fn hide_cursor_text() -> Seq<char> {
    csi() + seq!['?', '2', '5', 'l']
}

/// Moves the cursor to a column and a row, both counted from 1.
pub open spec fn goto_text(col: nat, row: nat) -> Seq<char> {
    csi() + decimal(row) + seq![';'] + decimal(col) + seq!['H']
}

/// Selects a foreground colour of the 8-bit palette.
pub open spec fn foreground_text(color: nat) -> Seq<char> {
    csi() + seq!['3', '8', ';', '5', ';'] + decimal(color) + seq!['m']
}

/// Selects a background colour of the 8-bit palette.
pub open spec fn background_text(color: nat) -> Seq<char> {
    csi() + seq!['4', '8', ';', '5', ';'] + decimal(color) + seq!['m']
}

/// Puts colours and attributes back to the terminal's defaults.
pub open spec fn reset_text() -> Seq<char> {
    csi() + seq!['m']
}

/// `termion::clear::All`, displayed: the sequence `ESC [ 2 J`.
#[verifier::external_body]
pub(crate) fn clear_all() -> (text: String)
    ensures
        text@ == clear_all_text(),
{
    termion::clear::All.to_string()
}

/// `termion::cursor::Hide`, displayed: the sequence `ESC [ ? 2 5 l`.
#[verifier::external_body]
pub(crate) fn hide_cursor() -> (text: String)
    ensures
        text@ == hide_cursor_text(),
{
    termion::cursor::Hide.to_string()
}

/// `termion::cursor::Goto`, converted to a `String`: `ESC [`, the row and the
/// column in decimal with `;` between them, and `H`.
#[verifier::external_body]
pub(crate) fn goto(col: u16, row: u16) -> (text: String)
    ensures
        text@ == goto_text(col as nat, row as nat),
{
    String::from(termion::cursor::Goto(col, row))
}

/// `termion::color::AnsiValue::fg_string`: `ESC [ 3 8 ; 5 ;`, the colour in
/// decimal, and `m`.
#[verifier::external_body]
pub(crate) fn foreground(color: u8) -> (text: String)
    ensures
        text@ == foreground_text(color as nat),
{
    termion::color::AnsiValue(color).fg_string()
}

/// `termion::color::AnsiValue::bg_string`: `ESC [ 4 8 ; 5 ;`, the colour in
/// decimal, and `m`.
#[verifier::external_body]
pub(crate) fn background(color: u8) -> (text: String)
    ensures
        text@ == background_text(color as nat),
{
    termion::color::AnsiValue(color).bg_string()
}

/// `termion::style::Reset`, displayed: the sequence `ESC [ m`.
#[verifier::external_body]
pub(crate) fn reset() -> (text: String)
    ensures
        text@ == reset_text(),
{
    termion::style::Reset.to_string()
}

/// `String::push` appends one character.
pub assume_specification[ String::push ](text: &mut String, ch: char)
    ensures
        final(text)@ == old(text)@.push(ch),
;

/// The sequence that opens a frame: the screen is erased, the cursor hidden
/// and sent to the top left corner.
pub open spec fn clear_text() -> Seq<char> {
    clear_all_text() + hide_cursor_text() + goto_text(1, 1)
}

/// The sequence that opens a frame.
pub fn clear() -> (text: String)
    ensures
        text@ == clear_text(),
{
    let mut text = clear_all();
    text.append(hide_cursor().as_str());
    text.append(goto(1, 1).as_str());
    text
}

} // verus!
