//! Moves and the errors a move attempt can produce.

use vstd::prelude::*;
use crate::piece::{PieceType, Square};

verus! {

/// A move: either a normal board move or a drop of a hand piece.
#[derive(Clone, Copy, Debug, PartialEq, Eq, Structural)]
pub enum Move {
    Normal { from: Square, to: Square, promote: bool },
    Drop { to: Square, piece_type: PieceType },
}

/// USI file digit of a file index: `'1'` for file 0 up to `'9'` for file 8.
pub open spec fn file_char(f: int) -> char {
    if f == 0 { '1' }
    else if f == 1 { '2' }
    else if f == 2 { '3' }
    else if f == 3 { '4' }
    else if f == 4 { '5' }
    else if f == 5 { '6' }
    else if f == 6 { '7' }
    else if f == 7 { '8' }
    else { '9' }
}

/// USI rank letter of a rank index: `'a'` for rank 0 down to `'i'` for rank 8.
pub open spec fn rank_char(r: int) -> char {
    if r == 0 { 'a' }
    else if r == 1 { 'b' }
    else if r == 2 { 'c' }
    else if r == 3 { 'd' }
    else if r == 4 { 'e' }
    else if r == 5 { 'f' }
    else if r == 6 { 'g' }
    else if r == 7 { 'h' }
    else { 'i' }
}

/// USI notation of a square: file digit, then rank letter.
pub open spec fn square_usi(sq: Square) -> Seq<char> {
    seq![file_char(sq.file as int), rank_char(sq.rank as int)]
}

/// USI notation of a move, as the engine protocol writes it.
pub open spec fn move_usi(m: Move) -> Seq<char> {
    match m {
        Move::Normal { from, to, promote } => square_usi(from) + square_usi(to) + if promote {
            "+"@
        } else {
            Seq::empty()
        },
        Move::Drop { to, piece_type } => piece_type.spec_sfen_upper() + "*"@ + square_usi(to),
    }
}

/// Returns the USI file digit of a file index.
fn file_str(f: u8) -> (r: &'static str)
    requires
        f < 9,
    ensures
        r@ =~= seq![file_char(f as int)],
{
    proof {
        reveal_strlit("1");
        reveal_strlit("2");
        reveal_strlit("3");
        reveal_strlit("4");
        reveal_strlit("5");
        reveal_strlit("6");
        reveal_strlit("7");
        reveal_strlit("8");
        reveal_strlit("9");
    }
    if f == 0 { "1" }
    else if f == 1 { "2" }
    else if f == 2 { "3" }
    else if f == 3 { "4" }
    else if f == 4 { "5" }
    else if f == 5 { "6" }
    else if f == 6 { "7" }
    else if f == 7 { "8" }
    else { "9" }
}

/// Returns the USI rank letter of a rank index.
fn rank_str(r: u8) -> (res: &'static str)
    requires
        r < 9,
    ensures
        res@ =~= seq![rank_char(r as int)],
{
    proof {
        reveal_strlit("a");
        reveal_strlit("b");
        reveal_strlit("c");
        reveal_strlit("d");
        reveal_strlit("e");
        reveal_strlit("f");
        reveal_strlit("g");
        reveal_strlit("h");
        reveal_strlit("i");
    }
    if r == 0 { "a" }
    else if r == 1 { "b" }
    else if r == 2 { "c" }
    else if r == 3 { "d" }
    else if r == 4 { "e" }
    else if r == 5 { "f" }
    else if r == 6 { "g" }
    else if r == 7 { "h" }
    else { "i" }
}

impl Move {
    /// Every square of the move lies on the board.
    pub open spec fn valid(self) -> bool {
        match self {
            Move::Normal { from, to, promote: _ } => from.valid() && to.valid(),
            Move::Drop { to, piece_type: _ } => to.valid(),
        }
    }

    /// Renders the move in USI notation.
    pub fn to_usi(self) -> (r: String)
        requires
            self.valid(),
        ensures
            r@ == move_usi(self),
    {
        match self {
            Move::Normal { from, to, promote } => {
                let mut s = String::from_str(file_str(from.file));
                s.append(rank_str(from.rank));
                s.append(file_str(to.file));
                s.append(rank_str(to.rank));
                if promote {
                    s.append("+");
                }
                proof {
                    assert(s@ =~= move_usi(self));
                }
                s
            },
            Move::Drop { to, piece_type } => {
                let mut s = String::from_str(piece_type.sfen_upper());
                s.append("*");
                s.append(file_str(to.file));
                s.append(rank_str(to.rank));
                proof {
                    assert(s@ =~= move_usi(self));
                }
                s
            },
        }
    }
}

/// Why the rules authority refused (or specially resolved) a move.
#[derive(Clone, Copy, Debug, PartialEq, Eq, Structural)]
pub enum MoveRejection {
    /// The mover's king is or would be in check.
    InCheck,
    /// A pawn drop into a file that already holds an unpromoted pawn of
    /// the same color.
    Nifu,
    /// A pawn drop that gives an immediate, unavoidable mate.
    Uchifuzume,
    /// Fourfold repetition while the winning side keeps checking.
    PerpetualCheckWin,
    /// Fourfold repetition while the losing side keeps checking.
    PerpetualCheckLose,
    /// The moved piece does not belong to the side to move.
    EnemysTurn,
    /// The piece could never move again from the destination square.
    NonMovablePiece,
    /// The move does not fit the current position at all.
    Inconsistent,
    /// Fourfold repetition of the same position.
    Repetition,
}

impl MoveRejection {
    /// The repetition family of errors is detected only after the move has
    /// been applied, so the position has changed despite the error.
    pub open spec fn detected_after_apply(self) -> bool {
        match self {
            MoveRejection::Repetition | MoveRejection::PerpetualCheckWin
                | MoveRejection::PerpetualCheckLose => true,
            _ => false,
        }
    }

    /// Tests whether the error belongs to the repetition family, after
    /// which the position has changed despite the error.
    pub fn after_apply(self) -> (r: bool)
        ensures
            r == self.detected_after_apply(),
    {
        match self {
            MoveRejection::Repetition | MoveRejection::PerpetualCheckWin
                | MoveRejection::PerpetualCheckLose => true,
            _ => false,
        }
    }

    /// The message text shown for this error.
    pub open spec fn spec_message(self) -> Seq<char> {
        match self {
            MoveRejection::InCheck => "the king is in check"@,
            MoveRejection::Nifu => "nifu detected"@,
            MoveRejection::Uchifuzume => "uchifuzume detected"@,
            MoveRejection::PerpetualCheckWin => "perpetual check detected"@,
            MoveRejection::PerpetualCheckLose => "perpetual check detected"@,
            MoveRejection::EnemysTurn => "not your turn"@,
            MoveRejection::NonMovablePiece => "the piece cannot move there"@,
            MoveRejection::Inconsistent => "the move is inconsistent with the current position"@,
            MoveRejection::Repetition => "repetition detected"@,
        }
    }

    /// Returns a human-readable description of the error.
    pub fn message(self) -> (r: &'static str)
        ensures
            r@ == self.spec_message(),
    {
        match self {
            MoveRejection::InCheck => "the king is in check",
            MoveRejection::Nifu => "nifu detected",
            MoveRejection::Uchifuzume => "uchifuzume detected",
            MoveRejection::PerpetualCheckWin => "perpetual check detected",
            MoveRejection::PerpetualCheckLose => "perpetual check detected",
            MoveRejection::EnemysTurn => "not your turn",
            MoveRejection::NonMovablePiece => "the piece cannot move there",
            MoveRejection::Inconsistent => "the move is inconsistent with the current position",
            MoveRejection::Repetition => "repetition detected",
        }
    }
}

/// Why a position string was refused.
#[derive(Clone, Copy, Debug, PartialEq, Eq, Structural)]
pub enum SfenRejection {
    MissingDataFields,
    IllegalPieceType,
    IllegalSideToMove,
    IllegalMoveCount,
    IllegalMove,
    IllegalBoardState,
}

} // verus!
