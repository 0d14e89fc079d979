//! The rules of chess, as the `chess` crate decides them.
//!
//! A position is carried as the crate's own board value, which this library
//! never looks into: what stands on a square, whether a move is legal and what
//! the board is afterwards are each asked of the crate. The contracts of the
//! private functions in this file that make those calls are believed, not
//! proved; everything else here is proved from them.
//!
//! The crate reads safely only texts in which the side to move has a king,
//! and judges moves safely only on boards that pass its own sanity check and
//! hold at most 16 pieces of a side: its move list has room for no more. This
//! library therefore reads only well-formed texts, refuses a text whose board
//! the crate cannot judge, and asks for a move only on a board that it can.

use vstd::prelude::*;
use crate::fen::{is_well_formed, well_formed};

verus! {

/// The position every game starts from.
pub const START: &'static str = "rnbqkbnr/pppppppp/8/8/8/8/PPPPPPPP/RNBQKBNR w KQkq - 0 1";

/// The kind of a chess piece.
#[derive(Clone, Copy, Debug, PartialEq, Eq, Structural)]
pub enum Piece {
    Pawn,
    Knight,
    Bishop,
    Rook,
    Queen,
    King,
}

/// The side a piece belongs to.
#[derive(Clone, Copy, Debug, PartialEq, Eq, Structural)]
pub enum Side {
    White,
    Black,
}

/// Why a position could not be set up.
#[derive(Clone, Copy, Debug, PartialEq, Eq, Structural)]
pub enum PositionError {
    InvalidPosition,
}

/// A square of the board by rank and file, both counted from zero: rank 0 is
/// White's back rank and file 0 is the a-file.
#[derive(Clone, Copy, Debug, PartialEq, Eq, Structural)]
pub struct Square {
    rank: u8,
    file: u8,
}

impl Square {
    #[verifier::type_invariant]
    spec fn on_board(self) -> bool {
        self.rank < 8 && self.file < 8
    }

    /// The square lies on the board, as every square that this library hands
    /// out does.
    pub closed spec fn wf(self) -> bool {
        self.rank < 8 && self.file < 8
    }

    pub closed spec fn spec_rank(self) -> u8 {
        self.rank
    }

    pub closed spec fn spec_file(self) -> u8 {
        self.file
    }

    /// The square at a rank and a file.
    pub closed spec fn at(rank: u8, file: u8) -> Square {
        Square { rank, file }
    }

    /// A square is its rank and its file, and nothing more.
    pub proof fn lemma_at(rank: u8, file: u8)
        ensures
            Self::at(rank, file).rank() == rank,
            Self::at(rank, file).file() == file,
            Self::at(rank, file).wf() <==> rank < 8 && file < 8,
    {
    }

    /// Two squares with the same rank and file are the same square.
    pub proof fn lemma_same(self, other: Square)
        ensures
            self == other <==> self.rank() == other.rank() && self.file() == other.file(),
            self == Self::at(self.rank(), self.file()),
    {
    }

    /// The number of the square, counted along the ranks from a1.
    pub open spec fn number(self) -> int {
        self.rank() * 8 + self.file()
    }

    /// The square at a rank and a file, or nothing when either is off the board.
    pub fn new(rank: u8, file: u8) -> (square: Option<Square>)
        ensures
            square.is_some() <==> rank < 8 && file < 8,
            square.is_some() ==> {
                &&& square.unwrap() == Self::at(rank, file)
                &&& square.unwrap().wf()
                &&& square.unwrap().rank() == rank
                &&& square.unwrap().file() == file
            },
    {
        if rank < 8 && file < 8 {
            Some(Square { rank, file })
        } else {
            None
        }
    }

    #[verifier::when_used_as_spec(spec_rank)]
    pub fn rank(self) -> (rank: u8)
        ensures
            rank == self.spec_rank(),
            rank < 8,
            self.wf(),
    {
        proof {
            use_type_invariant(self);
        }
        self.rank
    }

    #[verifier::when_used_as_spec(spec_file)]
    pub fn file(self) -> (file: u8)
        ensures
            file == self.spec_file(),
            file < 8,
            self.wf(),
    {
        proof {
            use_type_invariant(self);
        }
        self.file
    }

    /// A square on the board has a rank and a file below 8, and so a
    /// number below 64.
    pub proof fn lemma_on_board(self)
        ensures
            self.wf() <==> self.rank() < 8 && self.file() < 8,
            self.wf() ==> 0 <= self.number() < 64,
    {
    }
}

#[verifier::external_type_specification]
#[verifier::external_body]
pub struct ExChessBoard(chess::Board);

#[verifier::external_type_specification]
#[verifier::external_body]
pub struct ExChessError(chess::Error);

/// What the crate makes of a position text: the board it describes, or
/// nothing when the crate refuses the text.
pub uninterp spec fn fen_board(text: Seq<char>) -> Option<chess::Board>;

/// Whether a board passes the crate's sanity check.
pub uninterp spec fn sane(board: chess::Board) -> bool;

/// The kind of piece on each square of a board, by the square's number.
pub uninterp spec fn board_pieces(board: chess::Board) -> Seq<Option<Piece>>;

/// The side that holds each square of a board, by the square's number.
pub uninterp spec fn board_sides(board: chess::Board) -> Seq<Option<Side>>;

/// Whether moving what stands on `source` to `target`, without promotion, is
/// a legal move on a board; both squares by their numbers.
pub uninterp spec fn legal_move(board: chess::Board, source: int, target: int) -> bool;

/// The board after such a move.
pub uninterp spec fn board_after(board: chess::Board, source: int, target: int) -> chess::Board;

/// The most pieces of one side for which the crate's move list has room.
pub const MOST_PIECES: usize = 16;

/// How many of the first `upto` squares are held by a side.
pub open spec fn side_count(sides: Seq<Option<Side>>, side: Side, upto: int) -> int
    decreases upto,
{
    if upto <= 0 {
        0
    } else {
        side_count(sides, side, upto - 1) + if sides[upto - 1] == Some(side) {
            1int
        } else {
            0int
        }
    }
}

/// Whether the crate can judge moves on a board: the board passes the
/// crate's sanity check, and neither side holds more than 16 squares.
pub open spec fn judged(board: chess::Board) -> bool {
    &&& sane(board)
    &&& side_count(board_sides(board), Side::White, 64) <= MOST_PIECES
    &&& side_count(board_sides(board), Side::Black, 64) <= MOST_PIECES
}

/// `str::parse` into `chess::Board`, which is the crate's `FromStr`: whether
/// the text is accepted, and the board it is read into, depend on the text
/// alone. The crate looks for the king of the side to move before its sanity
/// check, and reads out of bounds when there is none: such texts are left
/// out.
#[verifier::external_body]
fn parse_board(text: &str) -> (parsed: Result<chess::Board, chess::Error>)
    requires
        well_formed(text@),
    ensures
        fen_board(text@) == match parsed {
            Ok(board) => Some(board),
            Err(_) => None,
        },
{
    text.parse::<chess::Board>()
}

/// `chess::Board::default`, which parses the starting position and so
/// returns the board of that text.
#[verifier::external_body]
fn default_board() -> (board: chess::Board)
    ensures
        Some(board) == fen_board(START@),
{
    chess::Board::default()
}

/// `chess::Board::is_sane`: whether the board passes the crate's sanity
/// check.
#[verifier::external_body]
fn is_sane(board: &chess::Board) -> (ok: bool)
    ensures
        ok == sane(*board),
{
    board.is_sane()
}

/// `chess::Board::piece_on` for the square at a rank and a file: the kind of
/// piece there, one for one in this library's own enum.
#[verifier::external_body]
fn piece_on(board: &chess::Board, square: Square) -> (piece: Option<Piece>)
    requires
        square.wf(),
    ensures
        piece == board_pieces(*board)[square.number()],
{
    let rank = chess::Rank::from_index(square.rank as usize);
    let file = chess::File::from_index(square.file as usize);
    match board.piece_on(chess::Square::make_square(rank, file)) {
        Some(chess::Piece::Pawn) => Some(Piece::Pawn),
        Some(chess::Piece::Knight) => Some(Piece::Knight),
        Some(chess::Piece::Bishop) => Some(Piece::Bishop),
        Some(chess::Piece::Rook) => Some(Piece::Rook),
        Some(chess::Piece::Queen) => Some(Piece::Queen),
        Some(chess::Piece::King) => Some(Piece::King),
        None => None,
    }
}

/// `chess::Board::color_on` for the square at a rank and a file: the side
/// whose piece stands there, one for one in this library's own enum.
#[verifier::external_body]
fn color_on(board: &chess::Board, square: Square) -> (side: Option<Side>)
    requires
        square.wf(),
    ensures
        side == board_sides(*board)[square.number()],
{
    let rank = chess::Rank::from_index(square.rank as usize);
    let file = chess::File::from_index(square.file as usize);
    match board.color_on(chess::Square::make_square(rank, file)) {
        Some(chess::Color::White) => Some(Side::White),
        Some(chess::Color::Black) => Some(Side::Black),
        None => None,
    }
}

/// `chess::Board::legal` on the move from one square to another without
/// promotion: whether the crate's move generator lists that move. The
/// generator looks up both kings, so the board must be sane. It keeps one
/// entry for each piece of the side to move, and up to two more for captures
/// in passing, in a list of 18 that it fills without looking at its length,
/// so neither side may hold more than 16 squares.
#[verifier::external_body]
fn legal(board: &chess::Board, source: Square, target: Square) -> (allowed: bool)
    requires
        judged(*board),
        source.wf(),
        target.wf(),
    ensures
        allowed == legal_move(*board, source.number(), target.number()),
{
    let from = chess::Rank::from_index(source.rank as usize);
    let from = chess::Square::make_square(from, chess::File::from_index(source.file as usize));
    let to = chess::Rank::from_index(target.rank as usize);
    let to = chess::Square::make_square(to, chess::File::from_index(target.file as usize));
    board.legal(chess::ChessMove::new(from, to, None))
}

/// `chess::Board::make_move_new` on the move from one square to another
/// without promotion. The crate makes only legal moves safely, and only on a
/// sane board.
#[verifier::external_body]
fn make_move_new(board: &chess::Board, source: Square, target: Square) -> (next: chess::Board)
    requires
        sane(*board),
        source.wf(),
        target.wf(),
        legal_move(*board, source.number(), target.number()),
    ensures
        next == board_after(*board, source.number(), target.number()),
{
    let from = chess::Rank::from_index(source.rank as usize);
    let from = chess::Square::make_square(from, chess::File::from_index(source.file as usize));
    let to = chess::Rank::from_index(target.rank as usize);
    let to = chess::Square::make_square(to, chess::File::from_index(target.file as usize));
    board.make_move_new(chess::ChessMove::new(from, to, None))
}

/// How many squares each side holds on a board: White's count, then Black's.
fn count_sides(board: &chess::Board) -> (held: (usize, usize))
    ensures
        held.0 == side_count(board_sides(*board), Side::White, 64),
        held.1 == side_count(board_sides(*board), Side::Black, 64),
{
    let mut white: usize = 0;
    let mut black: usize = 0;
    let mut number: u8 = 0;
    while number < 64
        invariant
            number <= 64,
            white == side_count(board_sides(*board), Side::White, number as int),
            black == side_count(board_sides(*board), Side::Black, number as int),
            white <= number,
            black <= number,
        decreases 64 - number,
    {
        match Square::new(number / 8, number % 8) {
            Some(square) => {
                match color_on(board, square) {
                    Some(Side::White) => {
                        white += 1;
                    },
                    Some(Side::Black) => {
                        black += 1;
                    },
                    None => {},
                }
            },
            None => {},
        }
        number += 1;
    }
    (white, black)
}

/// Whether the crate can judge moves on a board.
fn can_judge(board: &chess::Board) -> (ok: bool)
    ensures
        ok == judged(*board),
{
    if is_sane(board) {
        let held = count_sides(board);
        held.0 <= MOST_PIECES && held.1 <= MOST_PIECES
    } else {
        false
    }
}

/// A chess position: a board of the rules crate.
#[derive(Clone, Copy, Debug)]
pub struct Position {
    inner: chess::Board,
}

impl Position {
    /// The board as the rules crate holds it.
    pub closed spec fn inner(self) -> chess::Board {
        self.inner
    }

    /// The position that holds a board of the rules crate.
    pub closed spec fn of(inner: chess::Board) -> Position {
        Position { inner }
    }

    /// A position is the board it holds, and nothing more.
    pub proof fn lemma_of(self, inner: chess::Board)
        ensures
            Self::of(inner).inner() == inner,
            Self::of(self.inner()) == self,
    {
    }

    /// Whether the rules can judge moves here, as they can in every position
    /// that was read from a text.
    pub open spec fn playable(self) -> bool {
        judged(self.inner())
    }

    /// The kind of piece on a square, if any.
    pub open spec fn piece(self, square: Square) -> Option<Piece> {
        board_pieces(self.inner())[square.number()]
    }

    /// The side whose piece stands on a square, if any.
    pub open spec fn side(self, square: Square) -> Option<Side> {
        board_sides(self.inner())[square.number()]
    }

    /// Whether the rules allow the move from `source` to `target` here: they
    /// can judge the position, and the move is legal.
    pub open spec fn allows(self, source: Square, target: Square) -> bool {
        self.playable() && legal_move(self.inner(), source.number(), target.number())
    }

    /// The position after the move from `source` to `target`, which there is
    /// exactly when the rules allow the move.
    pub open spec fn after(self, source: Square, target: Square) -> Option<Position> {
        if self.allows(source, target) {
            Some(Self::of(board_after(self.inner(), source.number(), target.number())))
        } else {
            None
        }
    }

    /// What the rules crate's answer to a text is taken for: the position of
    /// the board it gave, if it gave one on which it can judge moves.
    pub open spec fn settled(parsed: Option<chess::Board>) -> Result<Position, PositionError> {
        match parsed {
            Some(inner) => if judged(inner) {
                Ok(Self::of(inner))
            } else {
                Err(PositionError::InvalidPosition)
            },
            None => Err(PositionError::InvalidPosition),
        }
    }

    /// What a text is read into: a text that is not well-formed is no
    /// position, and of a well-formed one the rules crate decides.
    pub open spec fn read(text: Seq<char>) -> Result<Position, PositionError> {
        if well_formed(text) {
            Self::settled(fen_board(text))
        } else {
            Err(PositionError::InvalidPosition)
        }
    }

    /// Sets up the position that a text describes. A text that is not
    /// well-formed is refused at once; of a well-formed one the rules crate
    /// decides.
    pub fn from_fen(text: &str) -> (board: Result<Position, PositionError>)
        ensures
            board == Self::read(text@),
            board.is_ok() ==> board.unwrap().playable(),
    {
        if is_well_formed(text) {
            Self::settle(parse_board(text))
        } else {
            Err(PositionError::InvalidPosition)
        }
    }

    /// The position for what the rules crate made of a text: the board it
    /// gave, if it gave one on which it can judge moves.
    pub fn settle(parsed: Result<chess::Board, chess::Error>) -> (board: Result<
        Position,
        PositionError,
    >)
        ensures
            board == Self::settled(
                match parsed {
                    Ok(inner) => Some(inner),
                    Err(_) => None,
                },
            ),
            board.is_ok() ==> board.unwrap().playable(),
    {
        match parsed {
            Ok(inner) => {
                if can_judge(&inner) {
                    Ok(Position { inner })
                } else {
                    Err(PositionError::InvalidPosition)
                }
            },
            Err(_) => Err(PositionError::InvalidPosition),
        }
    }

    /// Whether the rules can judge moves here.
    pub fn is_playable(&self) -> (ok: bool)
        ensures
            ok == self.playable(),
    {
        can_judge(&self.inner)
    }

    /// The kind of piece on a square, if any.
    pub fn piece_on(&self, square: Square) -> (piece: Option<Piece>)
        ensures
            piece == self.piece(square),
    {
        proof {
            use_type_invariant(square);
        }
        piece_on(&self.inner, square)
    }

    /// The side whose piece stands on a square, if any.
    pub fn color_on(&self, square: Square) -> (side: Option<Side>)
        ensures
            side == self.side(square),
    {
        proof {
            use_type_invariant(square);
        }
        color_on(&self.inner, square)
    }

    /// Plays the move from `source` to `target` if the rules allow it, and
    /// only then.
    pub fn play(&self, source: Square, target: Square) -> (next: Option<Position>)
        ensures
            next == self.after(source, target),
            next.is_some() <==> self.allows(source, target),
    {
        proof {
            use_type_invariant(source);
            use_type_invariant(target);
        }
        if can_judge(&self.inner) && legal(&self.inner, source, target) {
            Some(Position { inner: make_move_new(&self.inner, source, target) })
        } else {
            None
        }
    }
}

/// The starting position.
pub fn initial_grid() -> (board: Position)
    ensures
        fen_board(START@) == Some(board.inner()),
{
    Position { inner: default_board() }
}

/// Whether the move from `source` to `target` is legal on a board.
pub fn is_legal_move(board: Position, source: Square, target: Square) -> (allowed: bool)
    ensures
        allowed == board.allows(source, target),
{
    proof {
        use_type_invariant(source);
        use_type_invariant(target);
    }
    can_judge(&board.inner) && legal(&board.inner, source, target)
}

} // verus!
