//! The chessboard as a grid of cells, and the squares behind its pixels.
//!
//! The board is painted with Black's back rank on top: row 0 of the grid is
//! rank 8, and column 0 is the a-file.

use vstd::prelude::*;
use crate::cell::{AnsiColor, Cell, BLANK};
use crate::grid::Grid;
use crate::mapper::Layout;
use crate::rules::{Piece, Position, Side, Square};

verus! {

/// Character columns per square.
pub const CELL_WIDTH: usize = 7;

/// Character rows per square.
pub const CELL_HEIGHT: usize = 3;

/// Ranks, and files, of the board.
pub const NUM_RANKS: usize = 8;

/// The figurine of a piece of a side.
pub open spec fn figure(piece: Piece, side: Side) -> char {
    match side {
        Side::White => match piece {
            Piece::Pawn => '♙',
            Piece::Knight => '♘',
            Piece::Bishop => '♗',
            Piece::Rook => '♖',
            Piece::Queen => '♕',
            Piece::King => '♔',
        },
        Side::Black => match piece {
            Piece::Pawn => '♟',
            Piece::Knight => '♞',
            Piece::Bishop => '♝',
            Piece::Rook => '♜',
            Piece::Queen => '♛',
            Piece::King => '♚',
        },
    }
}

/// The side a square is painted for: White where a white piece stands, Black
/// everywhere else.
pub open spec fn painted_side(position: Position, square: Square) -> Side {
    if position.side(square) == Some(Side::White) {
        Side::White
    } else {
        Side::Black
    }
}

/// The glyph painted on a square: the figurine of its piece, or a blank.
pub open spec fn glyph_on(position: Position, square: Square) -> char {
    match position.piece(square) {
        Some(piece) => figure(piece, painted_side(position, square)),
        None => BLANK,
    }
}

/// The background of a square: grey when it is the selected one, else white
/// where rank and file add up to an even number and dark where they do not.
pub open spec fn background(square: Square, selection: Option<Square>) -> AnsiColor {
    if Some(square) == selection {
        AnsiColor::Grey
    } else if (square.rank() + square.file()) % 2 == 0 {
        AnsiColor::White
    } else {
        AnsiColor::Dark
    }
}

/// The cell painted for a square.
pub open spec fn display_cell(position: Position, square: Square, selection: Option<Square>) -> Cell {
    Cell {
        glyph: glyph_on(position, square),
        foreground: AnsiColor::Blue.code(),
        background: background(square, selection).code(),
    }
}

/// The cells of one rank, from the a-file to the h-file.
pub open spec fn rank_cells(position: Position, rank: u8, selection: Option<Square>) -> Seq<Cell> {
    Seq::new(8, |file: int| display_cell(position, Square::at(rank, file as u8), selection))
}

/// The square behind a row-major index of the painted board.
pub open spec fn display_square(index: int) -> Square {
    Square::at((7 - index / 8) as u8, (index % 8) as u8)
}

/// The row-major index at which a square is painted.
pub open spec fn display_index(square: Square) -> int {
    (7 - square.rank()) * 8 + square.file()
}

/// The cells of the whole board, rank 8 first.
pub open spec fn display_cells(position: Position, selection: Option<Square>) -> Seq<Cell> {
    Seq::new(64, |index: int| display_cell(position, display_square(index), selection))
}

/// The background of a square.
pub fn square_bg(square: Square, selection: &Option<Square>) -> (color: AnsiColor)
    ensures
        color == background(square, *selection),
{
    let selected = match selection {
        Some(chosen) => chosen.rank() == square.rank() && chosen.file() == square.file(),
        None => false,
    };
    proof {
        if selection.is_some() {
            square.lemma_same(selection.unwrap());
        }
    }
    if selected {
        AnsiColor::Grey
    } else if (square.rank() + square.file()) % 2 == 0 {
        AnsiColor::White
    } else {
        AnsiColor::Dark
    }
}

/// The figurine of a piece of a side.
pub fn to_unicode(piece: Piece, color: Side) -> (glyph: char)
    ensures
        glyph == figure(piece, color),
{
    match color {
        Side::White => match piece {
            Piece::Pawn => '♙',
            Piece::Knight => '♘',
            Piece::Bishop => '♗',
            Piece::Rook => '♖',
            Piece::Queen => '♕',
            Piece::King => '♔',
        },
        Side::Black => match piece {
            Piece::Pawn => '♟',
            Piece::Knight => '♞',
            Piece::Bishop => '♝',
            Piece::Rook => '♜',
            Piece::Queen => '♛',
            Piece::King => '♚',
        },
    }
}

/// The glyph for a square: the figurine, in the given side's set, of the piece
/// that stands there, or a blank.
pub fn piece_on_square(board: Position, square: Square, color: Side) -> (glyph: char)
    ensures
        glyph == match board.piece(square) {
            Some(piece) => figure(piece, color),
            None => BLANK,
        },
{
    match board.piece_on(square) {
        Some(piece) => to_unicode(piece, color),
        None => BLANK,
    }
}

/// The side a square is painted for.
pub fn color_of_piece(board: Position, square: Square) -> (side: Side)
    ensures
        side == painted_side(board, square),
{
    match board.color_on(square) {
        Some(Side::White) => Side::White,
        _ => Side::Black,
    }
}

/// The cells of one rank, from the a-file to the h-file. A rank off the board
/// has no cells.
pub fn rank_to_display(board: Position, rank: u8, selection: &Option<Square>) -> (cells: Vec<Cell>)
    ensures
        rank < 8 ==> cells@ == rank_cells(board, rank, *selection),
        rank >= 8 ==> cells@.len() == 0,
{
    let mut cells: Vec<Cell> = Vec::new();
    let mut file: u8 = 0;
    while file < 8
        invariant
            file <= 8,
            rank < 8 ==> cells@ == rank_cells(board, rank, *selection).take(file as int),
            rank >= 8 ==> cells@.len() == 0,
        decreases 8 - file,
    {
        match Square::new(rank, file) {
            Some(square) => {
                let glyph = piece_on_square(board, square, color_of_piece(board, square));
                cells.push(Cell::new(glyph, AnsiColor::Blue.code(), square_bg(square, selection).code()));
            },
            None => {},
        }
        file += 1;
        assert(rank < 8 ==> cells@ =~= rank_cells(board, rank, *selection).take(file as int));
    }
    assert(rank < 8 ==> cells@ =~= rank_cells(board, rank, *selection));
    cells
}

/// The whole board as a grid of eight rows of eight cells, rank 8 on top.
pub fn board_to_display(board: Position, selection: &Option<Square>) -> (grid: Grid)
    ensures
        grid.wf(),
        grid.rows() == 8,
        grid.cols() == 8,
        grid@ == display_cells(board, *selection),
{
    let mut all: Vec<Cell> = Vec::new();
    let mut row: u8 = 0;
    while row < 8
        invariant
            row <= 8,
            all@ == display_cells(board, *selection).take(row * 8),
        decreases 8 - row,
    {
        let mut cells = rank_to_display(board, 7 - row, selection);
        all.append(&mut cells);
        row += 1;
        assert(all@ =~= display_cells(board, *selection).take(row * 8));
    }
    assert(all@ =~= display_cells(board, *selection));
    match Grid::new(NUM_RANKS, NUM_RANKS, all) {
        Some(grid) => grid,
        None => unreached(),
    }
}

/// The row-major index at which a square is painted.
pub fn square_index(square: Square) -> (index: usize)
    ensures
        index == display_index(square),
        index < 64,
        display_square(index as int) == square,
{
    let rank = square.rank();
    let file = square.file();
    proof {
        square.lemma_same(display_square((7 - rank) * 8 + file));
        Square::lemma_at(rank, file);
    }
    (7 - rank as usize) * NUM_RANKS + file as usize
}

/// The square painted at a row-major index, or nothing for an index off the
/// board.
pub fn index_square(index: usize) -> (square: Option<Square>)
    ensures
        square.is_some() <==> index < 64,
        square.is_some() ==> square.unwrap() == display_square(index as int)
            && square.unwrap().wf() && display_index(square.unwrap()) == index,
{
    if index >= NUM_RANKS * NUM_RANKS {
        return None;
    }
    let row: usize = index / NUM_RANKS;
    let col: usize = index % NUM_RANKS;
    proof {
        Square::lemma_at((7 - row) as u8, col as u8);
    }
    Square::new((NUM_RANKS - 1 - row) as u8, col as u8)
}

/// The layout of the painted board: eight by eight squares of seven by three
/// characters, from the top left corner of the screen.
pub open spec fn board_layout() -> Layout {
    Layout {
        cell_width: CELL_WIDTH as int,
        cell_height: CELL_HEIGHT as int,
        cols: NUM_RANKS as int,
        rows: NUM_RANKS as int,
        origin_col: 1,
        origin_row: 1,
    }
}

/// The square painted at a screen position, if the position is on the board.
pub open spec fn clicked_square(screen_col: int, screen_row: int) -> Option<Square> {
    if 1 <= screen_col <= NUM_RANKS * CELL_WIDTH && 1 <= screen_row <= NUM_RANKS * CELL_HEIGHT {
        Some(
            Square::at(
                (7 - (screen_row - 1) / (CELL_HEIGHT as int)) as u8,
                ((screen_col - 1) / (CELL_WIDTH as int)) as u8,
            ),
        )
    } else {
        None
    }
}

/// `matrix_display::MatrixDisplay::coordinates_at_cursor_position`, asked of
/// a display of `cells` blank cells in rows of `cols` under a format of
/// `cell_w` by `cell_h` characters. For each axis the crate clamps the cursor
/// to the far edge of the matrix, steps back by one and divides by the size
/// of a cell; it fails on a cursor of zero, on an empty matrix and on a cell
/// of size zero, which are left out here, as is a matrix too large to build.
#[verifier::external_body]
fn coordinates_at_cursor_position(
    cell_w: usize,
    cell_h: usize,
    cols: usize,
    cells: usize,
    cursor: (usize, usize),
) -> (at: (usize, usize))
    requires
        cell_w >= 1,
        cell_h >= 1,
        cols >= 1,
        cells / cols >= 1,
        cells <= 0xffff,
        cursor.0 >= 1,
        cursor.1 >= 1,
        cols * cell_w <= usize::MAX,
        (cells / cols) * cell_h <= usize::MAX,
    ensures
        at.0 == (vstd::math::min(cursor.0 as int, cols * cell_w) - 1) / (cell_w as int),
        at.1 == (vstd::math::min(cursor.1 as int, (cells / cols) * cell_h) - 1) / (cell_h as int),
{
    let format = matrix_display::Format::new(cell_w, cell_h);
    let blank = matrix_display::cell::Cell::new(' ', 0, 0);
    let mut data = matrix_display::matrix::Matrix::new(cols, vec![blank; cells]);
    let display = matrix_display::MatrixDisplay::new(&format, &mut data);
    display.coordinates_at_cursor_position(cursor)
}

/// The square painted at a screen position, or nothing for a position off the
/// board.
pub fn click_to_square(click: (u16, u16)) -> (square: Option<Square>)
    ensures
        square == clicked_square(click.0 as int, click.1 as int),
        square.is_some() ==> square.unwrap().wf(),
{
    if click.0 < 1 || click.1 < 1 {
        return None;
    }
    let x: usize = click.0 as usize;
    let y: usize = click.1 as usize;
    if x > NUM_RANKS * CELL_WIDTH || y > NUM_RANKS * CELL_HEIGHT {
        return None;
    }
    let at = coordinates_at_cursor_position(
        CELL_WIDTH,
        CELL_HEIGHT,
        NUM_RANKS,
        NUM_RANKS * NUM_RANKS,
        (x, y),
    );
    let rank: usize = NUM_RANKS - 1 - at.1;
    Square::new(rank as u8, at.0 as u8)
}

/// On the painted board, a click finds a square exactly where the board's
/// layout covers the clicked position, and the square is the one painted in
/// the cell that the layout maps the position to.
pub proof fn lemma_click_follows_layout(screen_col: int, screen_row: int)
    ensures
        board_layout().wf(),
        clicked_square(screen_col, screen_row).is_some() <==> board_layout().covers(
            screen_col,
            screen_row,
        ),
        board_layout().covers(screen_col, screen_row) ==> {
            let cell = board_layout().to_index(screen_col, screen_row).unwrap();
            clicked_square(screen_col, screen_row).unwrap() == display_square(cell.1 * 8 + cell.0)
        },
{
}

} // verus!
