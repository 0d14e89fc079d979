//! Reading a compact position string into the cells of a chessboard.
//!
//! A position string lists the squares of the board row by row. A piece letter
//! stands for one square, a decimal digit for that many empty squares in a
//! row, and `/` separates the rows without standing for anything.

use vstd::prelude::*;
use vstd::std_specs::iter::IteratorSpec;
use crate::cell::{Cell, BLANK};

verus! {

/// The character between two rows of a position string.
pub const SEPARATOR: char = '/';

/// The number of squares of a chessboard.
pub const SQUARES: usize = 64;

/// The number of squares in one row of a chessboard.
pub const SIDE: usize = 8;

/// A run of `n` blanks.
pub open spec fn spaces(n: nat) -> Seq<char> {
    Seq::new(n, |i: int| BLANK)
}

/// Whether a character is a run length.
pub open spec fn is_run_length(x: char) -> bool {
    '0' <= x <= '9'
}

/// The length of the run that a digit stands for.
pub open spec fn run_length(x: char) -> nat {
    (x as int - '0' as int) as nat
}

/// What one character of a position string stands for before the separators
/// are dropped: a run of blanks for a digit, itself otherwise.
pub open spec fn expansion(x: char) -> Seq<char> {
    if is_run_length(x) {
        spaces(run_length(x))
    } else {
        seq![x]
    }
}

/// The squares that one character of a position string contributes.
pub open spec fn squares_of(x: char) -> Seq<char> {
    if x == SEPARATOR {
        Seq::empty()
    } else {
        expansion(x)
    }
}

/// The squares of a whole position string, in order.
pub open spec fn squares(text: Seq<char>) -> Seq<char>
    decreases text.len(),
{
    if text.len() == 0 {
        Seq::empty()
    } else {
        squares(text.drop_last()) + squares_of(text.last())
    }
}

/// The figurine for a piece letter; any other character stands for itself.
pub open spec fn figurine(x: char) -> char {
    if x == 'r' {
        '♜'
    } else if x == 'R' {
        '♖'
    } else if x == 'n' {
        '♞'
    } else if x == 'N' {
        '♘'
    } else if x == 'b' {
        '♝'
    } else if x == 'B' {
        '♗'
    } else if x == 'q' {
        '♛'
    } else if x == 'Q' {
        '♕'
    } else if x == 'k' {
        '♚'
    } else if x == 'K' {
        '♔'
    } else if x == 'p' {
        '♟'
    } else if x == 'P' {
        '♙'
    } else {
        x
    }
}

/// The background of the square at a row-major index: the two palette
/// entries alternate along a row and from one row to the next.
pub open spec fn tile(index: int) -> u8 {
    if index % 2 + (index / (SIDE as int)) % 2 == 1 {
        7
    } else {
        0
    }
}

/// The cell painted for the square at `index` that holds the letter `x`.
pub open spec fn square_cell(index: int, x: char) -> Cell {
    Cell { glyph: figurine(x), foreground: 33, background: tile(index) }
}

/// The cells of the first 64 squares, or of all of them where there are fewer.
pub open spec fn board_cells(squares: Seq<char>) -> Seq<Cell> {
    Seq::new(
        if squares.len() <= SQUARES {
            squares.len()
        } else {
            SQUARES as nat
        },
        |i: int| square_cell(i, squares[i]),
    )
}

/// The cells that a position string is read into.
pub open spec fn xchess_cells(text: Seq<char>) -> Seq<Cell> {
    board_cells(squares(text))
}

/// What each kind of character contributes: a digit stands for as many
/// blank squares as it says, a separator for none, and any other character
/// for exactly one square, which holds it.
pub proof fn lemma_squares_of(x: char)
    ensures
        is_run_length(x) ==> squares_of(x).len() == run_length(x) && forall|i: int|
            0 <= i < squares_of(x).len() ==> squares_of(x)[i] == BLANK,
        x == SEPARATOR ==> squares_of(x).len() == 0,
        !is_run_length(x) && x != SEPARATOR ==> squares_of(x) == seq![x],
        squares_of(x).len() <= 9,
{
}

/// Reading two strings one after the other gives the squares of the first
/// followed by the squares of the second.
pub proof fn lemma_squares_concat(a: Seq<char>, b: Seq<char>)
    ensures
        squares(a + b) == squares(a) + squares(b),
    decreases b.len(),
{
    if b.len() == 0 {
        assert(a + b =~= a);
        assert(squares(a) + squares(b) =~= squares(a));
    } else {
        lemma_squares_concat(a, b.drop_last());
        assert((a + b).drop_last() =~= a + b.drop_last());
        assert((a + b).last() == b.last());
        assert(squares(a + b) =~= squares(a) + squares(b));
    }
}

/// A position string is read into one cell for each of its squares up to the
/// size of the board: exactly 64 cells once the string holds 64 squares, and
/// each cell holds the figurine of its square on its alternating background.
pub proof fn lemma_xchess_cells(text: Seq<char>)
    ensures
        squares(text).len() >= SQUARES ==> xchess_cells(text).len() == SQUARES,
        squares(text).len() <= SQUARES ==> xchess_cells(text).len() == squares(text).len(),
        forall|i: int|
            0 <= i < xchess_cells(text).len() ==> #[trigger] xchess_cells(text)[i] == square_cell(
                i,
                squares(text)[i],
            ),
{
}

/// A run of `n` blanks.
pub fn n_spaces(n: usize) -> (run: Vec<char>)
    ensures
        run@ == spaces(n as nat),
{
    let mut run: Vec<char> = Vec::new();
    let mut i: usize = 0;
    while i < n
        invariant
            i <= n,
            run@ == spaces(i as nat),
        decreases n - i,
    {
        run.push(BLANK);
        i += 1;
        assert(run@ =~= spaces(i as nat));
    }
    run
}

/// The number that a decimal digit stands for.
fn digit_value(x: char) -> (n: usize)
    requires
        is_run_length(x),
    ensures
        n == run_length(x),
{
    if x == '0' {
        0
    } else if x == '1' {
        1
    } else if x == '2' {
        2
    } else if x == '3' {
        3
    } else if x == '4' {
        4
    } else if x == '5' {
        5
    } else if x == '6' {
        6
    } else if x == '7' {
        7
    } else if x == '8' {
        8
    } else {
        9
    }
}

/// A digit becomes a run of blanks of that length; any other character is
/// kept as it is.
pub fn expand_if_numeric(x: char) -> (run: Vec<char>)
    ensures
        run@ == expansion(x),
{
    if '0' <= x && x <= '9' {
        n_spaces(digit_value(x))
    } else {
        let mut run: Vec<char> = Vec::new();
        run.push(x);
        assert(run@ =~= seq![x]);
        run
    }
}

/// The figurine for a piece letter; any other character stands for itself.
pub fn unicode_pawn(x: char) -> (glyph: char)
    ensures
        glyph == figurine(x),
{
    match x {
        'r' => '♜',
        'R' => '♖',
        'n' => '♞',
        'N' => '♘',
        'b' => '♝',
        'B' => '♗',
        'q' => '♛',
        'Q' => '♕',
        'k' => '♚',
        'K' => '♔',
        'p' => '♟',
        'P' => '♙',
        _ => x,
    }
}

/// The background of the square at a row-major index.
pub fn tile_background(index: usize) -> (color: u8)
    ensures
        color == tile(index as int),
{
    if index % 2 + (index / SIDE) % 2 == 1 {
        7
    } else {
        0
    }
}

/// Reads a position string into the cells of its first 64 squares: blue
/// figurines on alternating backgrounds.
pub fn read_xchess(xchess: &str) -> (cells: Vec<Cell>)
    ensures
        cells@ == xchess_cells(xchess@),
{
    let mut cells: Vec<Cell> = Vec::new();
    let ghost mut seen: Seq<char> = Seq::empty();
    proof {
        vstd::string::axiom_spec_iter(xchess);
    }
    for x in it: xchess.chars()
        invariant
            it.seq() == xchess@,
            seen == squares(xchess@.take(it.index())),
            cells@ == board_cells(seen),
    {
        let run = expand_if_numeric(x);
        let ghost before = seen;
        let mut j: usize = 0;
        while j < run.len()
            invariant
                j <= run.len(),
                run@ == expansion(x),
                x == SEPARATOR ==> seen == before,
                x != SEPARATOR ==> seen == before + run@.take(j as int),
                cells@ == board_cells(seen),
            decreases run.len() - j,
        {
            let y = run[j];
            if y != SEPARATOR {
                if cells.len() < SQUARES {
                    let cell = Cell::new(unicode_pawn(y), 33, tile_background(cells.len()));
                    cells.push(cell);
                }
                proof {
                    seen = seen.push(y);
                    assert(seen =~= before + run@.take(j + 1));
                }
            }
            j += 1;
            assert(cells@ =~= board_cells(seen));
        }
        proof {
            let k = it.index();
            assert(xchess@.take(k + 1).drop_last() =~= xchess@.take(k));
            assert(xchess@.take(k + 1).last() == x);
            assert(run@.take(run@.len() as int) =~= run@);
        }
    }
    assert(xchess@.take(xchess@.len() as int) =~= xchess@);
    cells
}

} // verus!
