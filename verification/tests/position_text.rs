use term_grid::cell::Cell;
use term_grid::xchess::{tile_background, expand_if_numeric, n_spaces, read_xchess, unicode_pawn};

#[test]
fn n_spaces_counts() {
    assert_eq!(n_spaces(0), Vec::<char>::new());
    assert_eq!(n_spaces(3), vec![' ', ' ', ' ']);
}

#[test]
fn a_digit_expands_to_that_many_blanks() {
    for (n, digit) in "012345678".chars().enumerate() {
        assert_eq!(expand_if_numeric(digit), vec![' '; n]);
    }
    assert_eq!(expand_if_numeric('9').len(), 9);
}

#[test]
fn other_characters_stay() {
    assert_eq!(expand_if_numeric('k'), vec!['k']);
    assert_eq!(expand_if_numeric('/'), vec!['/']);
    assert_eq!(expand_if_numeric(' '), vec![' ']);
    assert_eq!(expand_if_numeric('♜'), vec!['♜']);
}

#[test]
fn piece_letters_have_figurines() {
    let letters = "rRnNbBqQkKpP";
    let figurines = "♜♖♞♘♝♗♛♕♚♔♟♙";
    for (letter, figurine) in letters.chars().zip(figurines.chars()) {
        assert_eq!(unicode_pawn(letter), figurine);
    }
    assert_eq!(unicode_pawn(' '), ' ');
    assert_eq!(unicode_pawn('x'), 'x');
    assert_eq!(unicode_pawn('♜'), '♜');
}

#[test]
fn backgrounds_alternate() {
    assert_eq!(tile_background(0), 0);
    assert_eq!(tile_background(1), 7);
    assert_eq!(tile_background(7), 7);
    assert_eq!(tile_background(8), 7);
    assert_eq!(tile_background(9), 0);
    assert_eq!(tile_background(63), 0);
}

#[test]
fn the_starting_position_fills_the_board() {
    let cells = read_xchess("rnbqkbnr/pppppppp/8/8/8/8/PPPPPPPP/RNBQKBNR");
    assert_eq!(cells.len(), 64);
    let glyphs: String = cells.iter().map(|c| c.glyph).collect();
    let expected = "♜♞♝♛♚♝♞♜♟♟♟♟♟♟♟♟                                ♙♙♙♙♙♙♙♙♖♘♗♕♔♗♘♖";
    assert_eq!(glyphs, expected);
    for (i, cell) in cells.iter().enumerate() {
        assert_eq!(cell.foreground, 33);
        assert_eq!(cell.background, if i % 2 + (i / 8) % 2 == 1 { 7 } else { 0 });
    }
    assert_eq!(cells[0], Cell::new('♜', 33, 0));
    assert_eq!(cells[1], Cell::new('♞', 33, 7));
    assert_eq!(cells[8], Cell::new('♟', 33, 7));
}

#[test]
fn separators_stand_for_nothing() {
    assert_eq!(read_xchess("////"), Vec::<Cell>::new());
    assert_eq!(read_xchess(""), Vec::<Cell>::new());
    assert_eq!(read_xchess("k/"), vec![Cell::new('♚', 33, 0)]);
}

#[test]
fn runs_and_letters_mix() {
    let cells = read_xchess("2k1/0Q");
    let glyphs: String = cells.iter().map(|c| c.glyph).collect();
    assert_eq!(glyphs, "  ♚ ♕");
    assert_eq!(cells.len(), 5);
}

#[test]
fn only_the_first_64_squares_are_read() {
    let cells = read_xchess("8/8/8/8/8/8/8/7k/pppp");
    assert_eq!(cells.len(), 64);
    assert_eq!(cells[63].glyph, '♚');
    let cells = read_xchess("99999999");
    assert_eq!(cells.len(), 64);
    assert!(cells.iter().all(|c| c.glyph == ' '));
}

#[test]
fn a_short_string_gives_fewer_cells() {
    assert_eq!(read_xchess("8/8").len(), 16);
    assert_eq!(read_xchess("rnbqkbnr w KQkq").len(), 15);
}
