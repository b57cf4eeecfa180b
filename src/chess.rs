//! The board collaborator: cozy-chess's `Board`, reached through the items below.
//! Squares are indices `0..64`, a1 = 0, b1 = 1, ..., h8 = 63, as cozy-chess numbers them.
use vstd::prelude::*;

verus! {

#[verifier::external_type_specification]
#[verifier::external_body]
pub struct ExBoard(cozy_chess::Board);

/// A kind of chess piece.
#[derive(Debug, Clone, Copy, PartialEq, Eq, Structural)]
pub enum Piece {
    Pawn,
    Knight,
    Bishop,
    Rook,
    Queen,
    King,
}

/// A move as the protocol writes it: origin, destination, optional promotion.
#[derive(Debug, Clone, Copy, PartialEq, Eq, Structural)]
pub struct Move {
    pub from: u8,
    pub to: u8,
    pub promotion: Option<Piece>,
}

impl Move {
    /// Both squares are on the board.
    pub open spec fn wf(self) -> bool {
        self.from < 64 && self.to < 64
    }
}

/// The board that `Board::from_fen` reads from a text, if it reads one.
pub uninterp spec fn fen_board(fen: Seq<char>) -> Option<cozy_chess::Board>;

/// The hash that `Board::hash` gives a board.
pub uninterp spec fn hash_of(board: cozy_chess::Board) -> u64;

/// Whether `Board::side_to_move` gives white.
pub uninterp spec fn white_of(board: cozy_chess::Board) -> bool;

/// The kind of piece that `Board::piece_on` finds on a square.
pub uninterp spec fn piece_at(board: cozy_chess::Board, sq: u8) -> Option<Piece>;

pub open spec fn is_file(c: char) -> bool {
    'a' <= c && c <= 'h'
}

pub open spec fn is_rank(c: char) -> bool {
    '1' <= c && c <= '8'
}

/// The square with file letter `f` and rank digit `r`.
pub open spec fn square_of(f: char, r: char) -> u8 {
    ((f as int - 'a' as int) + 8 * (r as int - '1' as int)) as u8
}

/// What a fifth character after a move's two squares gives: a promotion for
/// `n`, `b`, `r`, `q`; none for `p`, `k` or a character outside ASCII; and a
/// failed read (`None`) for any other character.
pub open spec fn promotion_of(c: char) -> Option<Option<Piece>> {
    if c == 'n' {
        Some(Some(Piece::Knight))
    } else if c == 'b' {
        Some(Some(Piece::Bishop))
    } else if c == 'r' {
        Some(Some(Piece::Rook))
    } else if c == 'q' {
        Some(Some(Piece::Queen))
    } else if c == 'p' || c == 'k' || c >= '\u{80}' {
        Some(None)
    } else {
        None
    }
}

/// The move a word writes in coordinate notation (`e2e4`, `e7e8q`): two
/// squares, then an optional promotion; characters after the fifth are not read.
pub open spec fn move_of(w: Seq<char>) -> Option<Move> {
    if w.len() >= 4 && is_file(w[0]) && is_rank(w[1]) && is_file(w[2]) && is_rank(w[3]) {
        let from = square_of(w[0], w[1]);
        let to = square_of(w[2], w[3]);
        if w.len() == 4 {
            Some(Move { from, to, promotion: None })
        } else {
            match promotion_of(w[4]) {
                Some(promotion) => Some(Move { from, to, promotion }),
                None => None,
            }
        }
    } else {
        None
    }
}

/// The board after `Board::try_play` of a move, where the move is legal.
pub uninterp spec fn play_of(board: cozy_chess::Board, mv: Move) -> Option<cozy_chess::Board>;

/// The standard start position in Forsyth-Edwards notation.
pub open spec fn start_fen() -> Seq<char> {
    "rnbqkbnr/pppppppp/8/8/8/8/PPPPPPPP/RNBQKBNR w KQkq - 0 1"@
}

/// Relies on `Board::default`: the standard start position, the board that
/// `Board::from_fen` reads from the start position's text.
#[verifier::external_body]
pub fn start_board() -> (r: cozy_chess::Board)
    ensures
        fen_board(start_fen()) == Some(r),
{
    cozy_chess::Board::default()
}

/// Relies on `Board::from_fen` (standard castling notation): `None` where the
/// text is no valid position.
#[verifier::external_body]
pub fn board_from_fen(fen: &Vec<char>) -> (r: Option<cozy_chess::Board>)
    ensures
        r == fen_board(fen@),
{
    let text: String = fen.iter().collect();
    cozy_chess::Board::from_fen(&text, false).ok()
}

/// Relies on `Board::hash`: the position's hash.
#[verifier::external_body]
pub fn board_hash(board: &cozy_chess::Board) -> (r: u64)
    ensures
        r == hash_of(*board),
{
    board.hash()
}

/// Relies on `Board::side_to_move`: whether white is to move.
#[verifier::external_body]
pub fn white_to_move(board: &cozy_chess::Board) -> (r: bool)
    ensures
        r == white_of(*board),
{
    board.side_to_move() == cozy_chess::Color::White
}

/// Relies on `Board::piece_on`: the kind of piece on square `sq`, if any.
#[verifier::external_body]
pub fn piece_on(board: &cozy_chess::Board, sq: u8) -> (r: Option<Piece>)
    requires
        sq < 64,
    ensures
        r == piece_at(*board, sq),
{
    match board.piece_on(cozy_chess::Square::index(sq as usize)) {
        Some(cozy_chess::Piece::Pawn) => Some(Piece::Pawn),
        Some(cozy_chess::Piece::Knight) => Some(Piece::Knight),
        Some(cozy_chess::Piece::Bishop) => Some(Piece::Bishop),
        Some(cozy_chess::Piece::Rook) => Some(Piece::Rook),
        Some(cozy_chess::Piece::Queen) => Some(Piece::Queen),
        Some(cozy_chess::Piece::King) => Some(Piece::King),
        None => None,
    }
}

/// Relies on `Move`'s `FromStr`: it reads the squares from the first four bytes
/// and a promotion from the fifth, where that byte is a whole character.
#[verifier::external_body]
pub fn parse_move(word: &Vec<char>) -> (r: Option<Move>)
    ensures
        r == move_of(word@),
{
    let text: String = word.iter().collect();
    let mv: cozy_chess::Move = text.parse().ok()?;
    let promotion = match mv.promotion {
        Some(cozy_chess::Piece::Knight) => Some(Piece::Knight),
        Some(cozy_chess::Piece::Bishop) => Some(Piece::Bishop),
        Some(cozy_chess::Piece::Rook) => Some(Piece::Rook),
        Some(cozy_chess::Piece::Queen) => Some(Piece::Queen),
        _ => None,
    };
    Some(Move { from: mv.from as u8, to: mv.to as u8, promotion })
}

/// Relies on `Board::try_play`: plays `mv` where it is legal and reports whether
/// it did; an illegal move leaves the board as it was.
#[verifier::external_body]
pub fn try_play(board: &mut cozy_chess::Board, mv: Move) -> (r: bool)
    requires
        mv.wf(),
    ensures
        r == play_of(*old(board), mv) is Some,
        r ==> play_of(*old(board), mv) == Some(*final(board)),
        !r ==> *final(board) == *old(board),
{
    let promotion = match mv.promotion {
        Some(Piece::Pawn) => Some(cozy_chess::Piece::Pawn),
        Some(Piece::Knight) => Some(cozy_chess::Piece::Knight),
        Some(Piece::Bishop) => Some(cozy_chess::Piece::Bishop),
        Some(Piece::Rook) => Some(cozy_chess::Piece::Rook),
        Some(Piece::Queen) => Some(cozy_chess::Piece::Queen),
        Some(Piece::King) => Some(cozy_chess::Piece::King),
        None => None,
    };
    let from = cozy_chess::Square::index(mv.from as usize);
    let to = cozy_chess::Square::index(mv.to as usize);
    board.try_play(cozy_chess::Move { from, to, promotion }).is_ok()
}

} // verus!
