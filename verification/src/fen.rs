//! The shape of a position text, checked before the rules are asked to read
//! it.
//!
//! A position text is made of fields separated by single spaces. The first
//! field places the pieces: eight ranks separated by `/`, the eighth rank
//! first, each of exactly eight squares written as piece letters and as the
//! digits 1 to 8 for runs of empty squares. The second field names the side to
//! move, `w` or `b` in either case. A text is well-formed when both fields are,
//! and the side to move has a king on the board.

use vstd::prelude::*;
use vstd::std_specs::iter::IteratorSpec;
use crate::rules::Side;

verus! {

/// The character between two fields of a position text.
pub const FIELD_BREAK: char = ' ';

/// The character between two ranks of the placement field.
pub const RANK_BREAK: char = '/';

/// What the second field says of the side to move.
#[derive(Clone, Copy, Debug, PartialEq, Eq, Structural)]
pub enum Mover {
    /// The field is empty so far.
    Unread,
    /// The field names a side.
    Named(Side),
    /// The field is neither `w` nor `b`.
    Unknown,
}

/// What is known of a position text after reading a part of it.
#[derive(Clone, Copy, Debug, PartialEq, Eq, Structural)]
pub struct Scan {
    /// Fields finished so far, counted up to 2.
    pub field: u8,
    /// No character so far broke the shape of the placement field.
    pub shaped: bool,
    /// Ranks finished so far.
    pub ranks: u8,
    /// Squares of the current rank so far.
    pub files: u8,
    pub white_king: bool,
    pub black_king: bool,
    pub mover: Mover,
}

/// Whether a character is a piece letter.
pub open spec fn is_piece_letter(x: char) -> bool {
    x == 'r' || x == 'n' || x == 'b' || x == 'q' || x == 'k' || x == 'p' || x == 'R' || x == 'N'
        || x == 'B' || x == 'Q' || x == 'K' || x == 'P'
}

/// The number of empty squares that a digit from 1 to 8 stands for, and 0 for
/// any other character.
pub open spec fn blank_run(x: char) -> u8 {
    if x == '1' {
        1
    } else if x == '2' {
        2
    } else if x == '3' {
        3
    } else if x == '4' {
        4
    } else if x == '5' {
        5
    } else if x == '6' {
        6
    } else if x == '7' {
        7
    } else if x == '8' {
        8
    } else {
        0
    }
}

/// Before anything is read.
pub open spec fn start() -> Scan {
    Scan {
        field: 0,
        shaped: true,
        ranks: 0,
        files: 0,
        white_king: false,
        black_king: false,
        mover: Mover::Unread,
    }
}

/// Reading one character of the placement field.
pub open spec fn place(scan: Scan, x: char) -> Scan {
    if !scan.shaped {
        scan
    } else if x == RANK_BREAK {
        if scan.files == 8 && scan.ranks < 7 {
            Scan { ranks: (scan.ranks + 1) as u8, files: 0, ..scan }
        } else {
            Scan { shaped: false, ..scan }
        }
    } else if blank_run(x) > 0 {
        if scan.files + blank_run(x) <= 8 {
            Scan { files: (scan.files + blank_run(x)) as u8, ..scan }
        } else {
            Scan { shaped: false, ..scan }
        }
    } else if is_piece_letter(x) {
        if scan.files < 8 {
            Scan {
                files: (scan.files + 1) as u8,
                white_king: scan.white_king || x == 'K',
                black_king: scan.black_king || x == 'k',
                ..scan
            }
        } else {
            Scan { shaped: false, ..scan }
        }
    } else {
        Scan { shaped: false, ..scan }
    }
}

/// Reading one character of the field that names the side to move.
pub open spec fn name_mover(mover: Mover, x: char) -> Mover {
    if mover != Mover::Unread {
        Mover::Unknown
    } else if x == 'w' || x == 'W' {
        Mover::Named(Side::White)
    } else if x == 'b' || x == 'B' {
        Mover::Named(Side::Black)
    } else {
        Mover::Unknown
    }
}

/// Reading one character.
pub open spec fn step(scan: Scan, x: char) -> Scan {
    if scan.field >= 2 {
        scan
    } else if x == FIELD_BREAK {
        Scan { field: (scan.field + 1) as u8, ..scan }
    } else if scan.field == 0 {
        place(scan, x)
    } else {
        Scan { mover: name_mover(scan.mover, x), ..scan }
    }
}

/// What is known after reading a whole text.
pub open spec fn scan(text: Seq<char>) -> Scan
    decreases text.len(),
{
    if text.len() == 0 {
        start()
    } else {
        step(scan(text.drop_last()), text.last())
    }
}

/// Whether a finished scan found a well-formed text.
pub open spec fn accepts(scan: Scan) -> bool {
    &&& scan.field >= 1
    &&& scan.shaped
    &&& scan.ranks == 7
    &&& scan.files == 8
    &&& match scan.mover {
        Mover::Named(Side::White) => scan.white_king,
        Mover::Named(Side::Black) => scan.black_king,
        _ => false,
    }
}

/// Whether a position text is well-formed.
pub open spec fn well_formed(text: Seq<char>) -> bool {
    accepts(scan(text))
}

/// The number of empty squares that a digit from 1 to 8 stands for.
fn blank_run_of(x: char) -> (n: u8)
    ensures
        n == blank_run(x),
{
    match x {
        '1' => 1,
        '2' => 2,
        '3' => 3,
        '4' => 4,
        '5' => 5,
        '6' => 6,
        '7' => 7,
        '8' => 8,
        _ => 0,
    }
}

/// Whether a character is a piece letter.
fn piece_letter(x: char) -> (b: bool)
    ensures
        b == is_piece_letter(x),
{
    match x {
        'r' | 'n' | 'b' | 'q' | 'k' | 'p' | 'R' | 'N' | 'B' | 'Q' | 'K' | 'P' => true,
        _ => false,
    }
}

/// Reads one character of the placement field.
fn read_placement(scan: Scan, x: char) -> (next: Scan)
    requires
        scan.files <= 8,
        scan.ranks <= 7,
    ensures
        next == place(scan, x),
        next.files <= 8,
        next.ranks <= 7,
{
    let mut next = scan;
    if !scan.shaped {
        return next;
    }
    let run = blank_run_of(x);
    if x == RANK_BREAK {
        if scan.files == 8 && scan.ranks < 7 {
            next.ranks = scan.ranks + 1;
            next.files = 0;
        } else {
            next.shaped = false;
        }
    } else if run > 0 {
        if scan.files + run <= 8 {
            next.files = scan.files + run;
        } else {
            next.shaped = false;
        }
    } else if piece_letter(x) {
        if scan.files < 8 {
            next.files = scan.files + 1;
            next.white_king = scan.white_king || x == 'K';
            next.black_king = scan.black_king || x == 'k';
        } else {
            next.shaped = false;
        }
    } else {
        next.shaped = false;
    }
    next
}

/// Reads one character of the field that names the side to move.
fn read_mover(mover: Mover, x: char) -> (next: Mover)
    ensures
        next == name_mover(mover, x),
{
    match mover {
        Mover::Unread => {
            if x == 'w' || x == 'W' {
                Mover::Named(Side::White)
            } else if x == 'b' || x == 'B' {
                Mover::Named(Side::Black)
            } else {
                Mover::Unknown
            }
        },
        _ => Mover::Unknown,
    }
}

/// Reads a position text from its first character to its last.
pub fn read(text: &str) -> (found: Scan)
    ensures
        found == scan(text@),
{
    let mut found = Scan {
        field: 0,
        shaped: true,
        ranks: 0,
        files: 0,
        white_king: false,
        black_king: false,
        mover: Mover::Unread,
    };
    proof {
        vstd::string::axiom_spec_iter(text);
    }
    for x in it: text.chars()
        invariant
            it.seq() == text@,
            found == scan(text@.take(it.index())),
            found.field <= 2,
            found.files <= 8,
            found.ranks <= 7,
    {
        proof {
            let k = it.index();
            assert(text@.take(k + 1).drop_last() =~= text@.take(k));
            assert(text@.take(k + 1).last() == x);
        }
        if found.field >= 2 {
        } else if x == FIELD_BREAK {
            found.field = found.field + 1;
        } else if found.field == 0 {
            found = read_placement(found, x);
        } else {
            found.mover = read_mover(found.mover, x);
        }
    }
    assert(text@.take(text@.len() as int) =~= text@);
    found
}

/// Whether a position text is well-formed.
pub fn is_well_formed(text: &str) -> (ok: bool)
    ensures
        ok == well_formed(text@),
{
    let found = read(text);
    let king = match found.mover {
        Mover::Named(Side::White) => found.white_king,
        Mover::Named(Side::Black) => found.black_king,
        _ => false,
    };
    found.field >= 1 && found.shaped && found.ranks == 7 && found.files == 8 && king
}

} // verus!
