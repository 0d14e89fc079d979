use term_grid::cell::{AnsiColor, Cell};
use term_grid::display::{
    board_to_display, click_to_square, color_of_piece, index_square, piece_on_square,
    rank_to_display, square_bg, square_index, to_unicode,
};
use term_grid::rules::{
    initial_grid, is_legal_move, Piece, Position, PositionError, Side, Square, START,
};

fn sq(rank: u8, file: u8) -> Square {
    Square::new(rank, file).unwrap()
}

#[test]
fn squares_lie_on_the_board() {
    assert!(Square::new(8, 0).is_none());
    assert!(Square::new(0, 8).is_none());
    let square = sq(7, 3);
    assert_eq!(square.rank(), 7);
    assert_eq!(square.file(), 3);
    assert_eq!(square, sq(7, 3));
    assert_ne!(square, sq(3, 7));
}

#[test]
fn a_position_text_is_read_by_the_rules() {
    assert!(Position::from_fen(START).is_ok());
    assert!(Position::from_fen("b3k3/8/8/8/8/8/8/4K3 b - - 0 1").is_ok());
}

#[test]
fn a_malformed_text_is_no_position() {
    assert_eq!(Position::from_fen("").unwrap_err(), PositionError::InvalidPosition);
    assert_eq!(Position::from_fen("not a position").unwrap_err(), PositionError::InvalidPosition);
    assert_eq!(
        Position::from_fen("8/8/8/8/8/8/8/8 w - - 0 1").unwrap_err(),
        PositionError::InvalidPosition
    );
}

#[test]
fn the_starting_position_is_the_position_of_its_text() {
    let board = initial_grid();
    let parsed = Position::from_fen(START).unwrap();
    for rank in 0..8 {
        for file in 0..8 {
            assert_eq!(board.piece_on(sq(rank, file)), parsed.piece_on(sq(rank, file)));
            assert_eq!(board.color_on(sq(rank, file)), parsed.color_on(sq(rank, file)));
        }
    }
}

#[test]
fn pieces_stand_where_the_text_puts_them() {
    let board = initial_grid();
    assert_eq!(board.piece_on(sq(0, 0)), Some(Piece::Rook));
    assert_eq!(board.piece_on(sq(0, 1)), Some(Piece::Knight));
    assert_eq!(board.piece_on(sq(0, 2)), Some(Piece::Bishop));
    assert_eq!(board.piece_on(sq(0, 3)), Some(Piece::Queen));
    assert_eq!(board.piece_on(sq(0, 4)), Some(Piece::King));
    assert_eq!(board.piece_on(sq(1, 4)), Some(Piece::Pawn));
    assert_eq!(board.piece_on(sq(3, 4)), None);
    assert_eq!(board.piece_on(sq(7, 3)), Some(Piece::Queen));
    assert_eq!(board.color_on(sq(0, 0)), Some(Side::White));
    assert_eq!(board.color_on(sq(7, 7)), Some(Side::Black));
    assert_eq!(board.color_on(sq(4, 4)), None);
}

#[test]
fn the_rules_decide_what_is_legal() {
    let board = initial_grid();
    assert!(is_legal_move(board, sq(1, 4), sq(3, 4)));
    assert!(is_legal_move(board, sq(0, 6), sq(2, 5)));
    assert!(!is_legal_move(board, sq(1, 4), sq(4, 4)));
    assert!(!is_legal_move(board, sq(6, 4), sq(4, 4)));
    assert!(!is_legal_move(board, sq(3, 3), sq(4, 3)));
    assert!(!is_legal_move(board, sq(0, 0), sq(0, 0)));
}

#[test]
fn a_legal_move_is_played() {
    let board = initial_grid();
    let next = board.play(sq(1, 4), sq(3, 4)).unwrap();
    assert_eq!(next.piece_on(sq(1, 4)), None);
    assert_eq!(next.piece_on(sq(3, 4)), Some(Piece::Pawn));
    assert_eq!(next.color_on(sq(3, 4)), Some(Side::White));
    assert!(is_legal_move(next, sq(6, 4), sq(4, 4)));
    assert!(!is_legal_move(next, sq(1, 3), sq(3, 3)));
}

#[test]
fn an_illegal_move_is_not_played() {
    let board = initial_grid();
    assert!(board.play(sq(0, 0), sq(4, 0)).is_none());
    assert!(board.play(sq(4, 4), sq(5, 4)).is_none());
}

#[test]
fn settle_keeps_what_the_rules_made_of_a_text() {
    let parsed = "4k3/8/8/8/8/8/8/4K2R w K - 0 1".parse::<chess::Board>();
    let board = Position::settle(parsed).unwrap();
    assert_eq!(board.piece_on(sq(0, 7)), Some(Piece::Rook));
    assert_eq!(board.piece_on(sq(7, 4)), Some(Piece::King));
    let refused = "4k3".parse::<chess::Board>();
    assert_eq!(Position::settle(refused).unwrap_err(), PositionError::InvalidPosition);
    let leap = chess::ChessMove::new(chess::Square::E1, chess::Square::E7, None);
    let touching = chess::Board::default().make_move_new(leap);
    assert_eq!(Position::settle(Ok(touching)).unwrap_err(), PositionError::InvalidPosition);
}

#[test]
fn every_piece_has_its_figurine() {
    assert_eq!(to_unicode(Piece::Pawn, Side::White), '♙');
    assert_eq!(to_unicode(Piece::Knight, Side::White), '♘');
    assert_eq!(to_unicode(Piece::Bishop, Side::White), '♗');
    assert_eq!(to_unicode(Piece::Rook, Side::White), '♖');
    assert_eq!(to_unicode(Piece::Queen, Side::White), '♕');
    assert_eq!(to_unicode(Piece::King, Side::White), '♔');
    assert_eq!(to_unicode(Piece::Pawn, Side::Black), '♟');
    assert_eq!(to_unicode(Piece::Knight, Side::Black), '♞');
    assert_eq!(to_unicode(Piece::Bishop, Side::Black), '♝');
    assert_eq!(to_unicode(Piece::Rook, Side::Black), '♜');
    assert_eq!(to_unicode(Piece::Queen, Side::Black), '♛');
    assert_eq!(to_unicode(Piece::King, Side::Black), '♚');
}

#[test]
fn backgrounds_follow_rank_and_file() {
    assert_eq!(square_bg(sq(0, 0), &None), AnsiColor::White);
    assert_eq!(square_bg(sq(0, 1), &None), AnsiColor::Dark);
    assert_eq!(square_bg(sq(1, 0), &None), AnsiColor::Dark);
    assert_eq!(square_bg(sq(7, 7), &None), AnsiColor::White);
    assert_eq!(square_bg(sq(7, 7), &Some(sq(7, 7))), AnsiColor::Grey);
    assert_eq!(square_bg(sq(7, 7), &Some(sq(7, 6))), AnsiColor::White);
    assert_eq!(square_bg(sq(0, 1), &Some(sq(1, 0))), AnsiColor::Dark);
}

#[test]
fn glyphs_follow_the_board() {
    let board = initial_grid();
    assert_eq!(piece_on_square(board, sq(0, 4), Side::White), '♔');
    assert_eq!(piece_on_square(board, sq(0, 4), Side::Black), '♚');
    assert_eq!(piece_on_square(board, sq(4, 4), Side::White), ' ');
    assert_eq!(color_of_piece(board, sq(0, 4)), Side::White);
    assert_eq!(color_of_piece(board, sq(7, 4)), Side::Black);
    assert_eq!(color_of_piece(board, sq(4, 4)), Side::Black);
}

#[test]
fn a_rank_is_painted_from_the_a_file() {
    let board = initial_grid();
    let cells = rank_to_display(board, 0, &Some(sq(0, 2)));
    let glyphs: String = cells.iter().map(|c| c.glyph).collect();
    assert_eq!(glyphs, "♖♘♗♕♔♗♘♖");
    let backgrounds: Vec<u8> = cells.iter().map(|c| c.background).collect();
    assert_eq!(backgrounds, vec![0, 7, 23, 7, 0, 7, 0, 7]);
    assert!(cells.iter().all(|c| c.foreground == 33));
    assert_eq!(rank_to_display(board, 8, &None), Vec::<Cell>::new());
}

#[test]
fn the_board_is_painted_with_rank_eight_on_top() {
    let grid = board_to_display(initial_grid(), &None);
    assert_eq!(grid.rows(), 8);
    assert_eq!(grid.cols(), 8);
    let glyphs: String = (0..64).map(|i| grid.cell(i).unwrap().glyph).collect();
    let expected = "♜♞♝♛♚♝♞♜♟♟♟♟♟♟♟♟                                ♙♙♙♙♙♙♙♙♖♘♗♕♔♗♘♖";
    assert_eq!(glyphs, expected);
    assert_eq!(grid.get(0, 0), Ok(Cell::new('♜', 33, 7)));
    assert_eq!(grid.get(0, 1), Ok(Cell::new('♞', 33, 0)));
    assert_eq!(grid.get(7, 0), Ok(Cell::new('♖', 33, 0)));
    let lit = board_to_display(initial_grid(), &Some(sq(7, 0)));
    assert_eq!(lit.get(0, 0), Ok(Cell::new('♜', 33, 23)));
    assert_eq!(lit.get(0, 1), Ok(Cell::new('♞', 33, 0)));
}

#[test]
fn squares_and_indices_agree() {
    assert_eq!(square_index(sq(7, 0)), 0);
    assert_eq!(square_index(sq(7, 7)), 7);
    assert_eq!(square_index(sq(6, 1)), 9);
    assert_eq!(square_index(sq(0, 7)), 63);
    assert_eq!(index_square(0), Some(sq(7, 0)));
    assert_eq!(index_square(9), Some(sq(6, 1)));
    assert_eq!(index_square(63), Some(sq(0, 7)));
    assert_eq!(index_square(64), None);
    for index in 0..64 {
        assert_eq!(square_index(index_square(index).unwrap()), index);
    }
}

#[test]
fn a_click_finds_its_square() {
    assert_eq!(click_to_square((1, 1)), Some(sq(7, 0)));
    assert_eq!(click_to_square((7, 3)), Some(sq(7, 0)));
    assert_eq!(click_to_square((8, 3)), Some(sq(7, 1)));
    assert_eq!(click_to_square((7, 4)), Some(sq(6, 0)));
    assert_eq!(click_to_square((13, 6)), Some(sq(6, 1)));
    assert_eq!(click_to_square((56, 24)), Some(sq(0, 7)));
    assert_eq!(click_to_square((50, 22)), Some(sq(0, 7)));
}

#[test]
fn a_click_off_the_board_finds_nothing() {
    assert_eq!(click_to_square((0, 1)), None);
    assert_eq!(click_to_square((1, 0)), None);
    assert_eq!(click_to_square((57, 1)), None);
    assert_eq!(click_to_square((1, 25)), None);
    assert_eq!(click_to_square((u16::MAX, u16::MAX)), None);
}

#[test]
fn a_position_read_from_a_text_is_playable() {
    assert!(Position::from_fen(START).unwrap().is_playable());
    assert!(initial_grid().is_playable());
    assert!(Position::from_fen("b3k3/8/8/8/8/8/8/4K3 b - - 0 1").unwrap().is_playable());
}

#[test]
fn a_side_of_more_than_16_pieces_is_no_position() {
    let crowded = "k7/8/8/8/PPPPPPPP/8/PPPPPPPP/KNNN4 w - - 0 1";
    assert_eq!(Position::from_fen(crowded).unwrap_err(), PositionError::InvalidPosition);
    let parsed = crowded.parse::<chess::Board>();
    assert!(parsed.is_ok());
    assert_eq!(Position::settle(parsed).unwrap_err(), PositionError::InvalidPosition);
    let crowded = "knnn4/pppppppp/8/pppppppp/8/8/8/K7 b - - 0 1";
    assert_eq!(Position::from_fen(crowded).unwrap_err(), PositionError::InvalidPosition);
    let crowded = "knnn4/pppppppp/8/pppppppp/8/8/8/K7 w - - 0 1";
    assert_eq!(Position::from_fen(crowded).unwrap_err(), PositionError::InvalidPosition);
    let one_too_many = "k7/8/8/8/PPPPPPPP/8/PPPPP3/KNNN4 w - - 0 1";
    assert_eq!(Position::from_fen(one_too_many).unwrap_err(), PositionError::InvalidPosition);
}

#[test]
fn a_side_of_16_pieces_is_played() {
    let full = "k7/8/8/8/PPPPPPPP/8/PPPP4/KNNN4 w - - 0 1";
    let board = Position::from_fen(full).unwrap();
    assert!(board.is_playable());
    assert!(is_legal_move(board, sq(3, 0), sq(4, 0)));
    let next = board.play(sq(3, 0), sq(4, 0)).unwrap();
    assert_eq!(next.piece_on(sq(4, 0)), Some(Piece::Pawn));
    assert_eq!(next.piece_on(sq(3, 0)), None);
    assert!(next.is_playable());
}

#[test]
fn a_move_is_played_exactly_when_it_is_legal() {
    let board = initial_grid();
    for (source, target) in [(sq(1, 0), sq(2, 0)), (sq(1, 0), sq(4, 0)), (sq(0, 1), sq(2, 2)), (sq(7, 1), sq(5, 2))] {
        assert_eq!(board.play(source, target).is_some(), is_legal_move(board, source, target));
    }
}
