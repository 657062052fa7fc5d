//! The trusted boundary to the external rules authority (the `shogi`
//! crate), which owns move generation, move application and position
//! serialization.
//!
//! The authority's position is opaque.  Its observable state — the 81
//! cells, the side to move, the hand counts, the ply counter, the move
//! history and its most recent record, the candidate sets, the move
//! verdicts and the position string — is named by uninterpreted spec
//! functions, and every wrapper states over those names what the crate's
//! source shows.

use vstd::prelude::*;
use crate::piece::{Color, Piece, PieceType, Square};
use crate::moves::{Move, MoveRejection, SfenRejection};

verus! {

#[verifier::external_type_specification]
#[verifier::external_body]
pub struct ExPosition(shogi::Position);

#[verifier::external_type_specification]
#[verifier::external_body]
pub struct ExMoveError(shogi::MoveError);

#[verifier::external_type_specification]
#[verifier::external_body]
pub struct ExSfenError(shogi::SfenError);

/// The piece standing on the cell at `(file, rank)` of the position.
pub uninterp spec fn pos_piece_at(p: shogi::Position, file: int, rank: int) -> Option<Piece>;

/// The side to move next in the position.
pub uninterp spec fn pos_side(p: shogi::Position) -> Color;

/// How many pieces equal to `pc` the position holds in hand.
pub uninterp spec fn pos_hand(p: shogi::Position, pc: Piece) -> nat;

/// The number of moves recorded in the position's history.
pub uninterp spec fn pos_history_len(p: shogi::Position) -> nat;

/// The position's ply counter.
pub uninterp spec fn pos_ply(p: shogi::Position) -> nat;

/// The position's recorded history was built by successful moves on this
/// very position, most recent last, with nothing changed in between: the
/// prerequisite for undoing it record by record.
pub uninterp spec fn pos_undo_safe(p: shogi::Position) -> bool;

/// What `shogi::Position::move_candidates` returns: the squares to which
/// the given piece standing at `from` could move.
pub uninterp spec fn pos_candidates(p: shogi::Position, from: Square, pc: Piece) -> Set<Square>;

/// What `shogi::Position::to_sfen` returns for the position.
pub uninterp spec fn pos_sfen(p: shogi::Position) -> Seq<char>;

/// What `shogi::Position::make_move` answers for the given move on the
/// given position: acceptance, or the exact rejection.  With the move
/// tables prepared, the verdict depends on the position value and the
/// move alone.
pub uninterp spec fn pos_verdict(p: shogi::Position, m: Move) -> Result<(), MoveRejection>;

/// What `shogi::Move::from_sfen` returns: the move a USI token denotes.
pub uninterp spec fn usi_move(s: Seq<char>) -> Option<Move>;

/// Whether `shogi::Position::set_sfen`, reading into a freshly built
/// empty position, accepts the string; from that fixed starting state
/// acceptance depends on the string alone.
pub uninterp spec fn sfen_accepted(s: Seq<char>) -> bool;

/// The cell at `(file, rank)` of the position that `set_sfen` builds
/// from an accepted string, reading into a freshly built empty position.
pub uninterp spec fn sfen_cell(s: Seq<char>, file: int, rank: int) -> Option<Piece>;

/// The side to move of the position that `set_sfen` builds from an
/// accepted string, reading into a freshly built empty position.
pub uninterp spec fn sfen_side(s: Seq<char>) -> Color;

/// The hand count of `pc` in the position that `set_sfen` builds from an
/// accepted string, reading into a freshly built empty position.
pub uninterp spec fn sfen_hand(s: Seq<char>, pc: Piece) -> nat;

/// The move of the position's most recent history record: what the last
/// recorded `make_move` played.  Meaningful only while the history is
/// non-empty.
pub uninterp spec fn pos_last_move(p: shogi::Position) -> Move;

/// The piece the position's most recent history record captured, if any.
/// Meaningful only while the history is non-empty.
pub uninterp spec fn pos_last_captured(p: shogi::Position) -> Option<Piece>;

/// The library error carried by an authority move error.
pub uninterp spec fn move_error_repr(e: shogi::MoveError) -> MoveRejection;

/// The library error carried by an authority position-string error.
pub uninterp spec fn sfen_error_repr(e: shogi::SfenError) -> SfenRejection;

/// The kind itself where it is unpromoted, its base kind where promoted.
pub open spec fn unpromoted_kind(k: PieceType) -> PieceType {
    match k.spec_unpromote() {
        Some(base) => base,
        None => k,
    }
}

/// The piece that ends up on `to` after a normal move from `from`.
pub open spec fn placed_piece(a: shogi::Position, from: Square, promote: bool) -> Piece {
    match pos_piece_at(a, from.file as int, from.rank as int) {
        Some(moved) => if promote {
            match moved.piece_type.spec_promote() {
                Some(pt) => Piece { piece_type: pt, color: moved.color },
                None => moved,
            }
        } else {
            moved
        },
        None => Piece { piece_type: PieceType::King, color: Color::Black },
    }
}

/// The hand piece the mover gains by capturing `cap`: the captured piece,
/// turned to the mover's color and unpromoted.
pub open spec fn captured_gain(cap: Piece) -> Piece {
    Piece { piece_type: unpromoted_kind(cap.piece_type), color: cap.color.spec_flip() }
}

/// Position `b` is position `a` after the normal move `from -> to`:
/// the moved piece (promoted where asked) stands on `to`, `from` is empty,
/// every other cell is unchanged, the turn has passed, and a captured
/// piece was added, unpromoted, to the mover's hand.  A captured king is
/// the one exception: kings cannot be held in hand, so the authority's
/// hand bookkeeping ignores them and every count stays as it was.
pub open spec fn normal_move_applied(
    a: shogi::Position,
    b: shogi::Position,
    from: Square,
    to: Square,
    promote: bool,
) -> bool {
    &&& pos_piece_at(a, from.file as int, from.rank as int) is Some
    &&& from != to
    &&& pos_piece_at(b, from.file as int, from.rank as int) is None
    &&& pos_piece_at(b, to.file as int, to.rank as int) == Some(placed_piece(a, from, promote))
    &&& forall|f: int, r: int|
        0 <= f < 9 && 0 <= r < 9 && !(f == from.file as int && r == from.rank as int) && !(f
            == to.file as int && r == to.rank as int) ==> #[trigger] pos_piece_at(b, f, r)
            == pos_piece_at(a, f, r)
    &&& pos_side(b) == pos_side(a).spec_flip()
    &&& match pos_piece_at(a, to.file as int, to.rank as int) {
        Some(cap) => if cap.piece_type == PieceType::King {
            forall|pc: Piece| #[trigger] pos_hand(b, pc) == pos_hand(a, pc)
        } else {
            &&& pos_hand(b, captured_gain(cap)) == pos_hand(a, captured_gain(cap)) + 1
            &&& forall|pc: Piece|
                pc != captured_gain(cap) ==> #[trigger] pos_hand(b, pc) == pos_hand(a, pc)
        },
        None => forall|pc: Piece| #[trigger] pos_hand(b, pc) == pos_hand(a, pc),
    }
}

/// Position `b` is position `a` after dropping a piece of the given kind
/// on the empty square `to`: the piece stands there, every other cell is
/// unchanged, the turn has passed, and one such piece left the hand.
pub open spec fn drop_move_applied(
    a: shogi::Position,
    b: shogi::Position,
    to: Square,
    kind: PieceType,
) -> bool {
    let pc = Piece { piece_type: kind, color: pos_side(a) };
    &&& pos_piece_at(a, to.file as int, to.rank as int) is None
    &&& pos_piece_at(b, to.file as int, to.rank as int) == Some(pc)
    &&& forall|f: int, r: int|
        0 <= f < 9 && 0 <= r < 9 && !(f == to.file as int && r == to.rank as int)
            ==> #[trigger] pos_piece_at(b, f, r) == pos_piece_at(a, f, r)
    &&& pos_side(b) == pos_side(a).spec_flip()
    &&& pos_hand(b, pc) + 1 == pos_hand(a, pc)
    &&& forall|p2: Piece| p2 != pc ==> #[trigger] pos_hand(b, p2) == pos_hand(a, p2)
}

/// Position `b` is position `a` with the move `m` applied.
pub open spec fn move_applied(a: shogi::Position, b: shogi::Position, m: Move) -> bool {
    match m {
        Move::Normal { from, to, promote } => normal_move_applied(a, b, from, to, promote),
        Move::Drop { to, piece_type } => drop_move_applied(a, b, to, piece_type),
    }
}

/// Some cell of the given file holds an unpromoted pawn of the given color.
pub open spec fn pawn_in_file(p: shogi::Position, file: int, c: Color) -> bool {
    exists|r: int|
        0 <= r < 9 && pos_piece_at(p, file, r) == Some(
            Piece { piece_type: PieceType::Pawn, color: c },
        )
}

/// The arrangement of the standard starting position.
pub open spec fn start_cell(file: int, rank: int) -> Option<Piece> {
    let back_kind = if file == 0 || file == 8 {
        PieceType::Lance
    } else if file == 1 || file == 7 {
        PieceType::Knight
    } else if file == 2 || file == 6 {
        PieceType::Silver
    } else if file == 3 || file == 5 {
        PieceType::Gold
    } else {
        PieceType::King
    };
    if rank == 0 {
        Some(Piece { piece_type: back_kind, color: Color::White })
    } else if rank == 1 && file == 7 {
        Some(Piece { piece_type: PieceType::Rook, color: Color::White })
    } else if rank == 1 && file == 1 {
        Some(Piece { piece_type: PieceType::Bishop, color: Color::White })
    } else if rank == 2 {
        Some(Piece { piece_type: PieceType::Pawn, color: Color::White })
    } else if rank == 6 {
        Some(Piece { piece_type: PieceType::Pawn, color: Color::Black })
    } else if rank == 7 && file == 7 {
        Some(Piece { piece_type: PieceType::Bishop, color: Color::Black })
    } else if rank == 7 && file == 1 {
        Some(Piece { piece_type: PieceType::Rook, color: Color::Black })
    } else if rank == 8 {
        Some(Piece { piece_type: back_kind, color: Color::Black })
    } else {
        None
    }
}

/// What a completed `make_move` call guarantees: on success, and on the
/// repetition family of errors (which the authority detects only after
/// applying the move), the move is applied; on any other error nothing
/// has changed.  Success grows the history by one record, a repetition
/// error leaves it as it was.
pub open spec fn apply_move_outcome(
    a: shogi::Position,
    b: shogi::Position,
    m: Move,
    r: Result<(), MoveRejection>,
) -> bool {
    match r {
        Ok(()) => move_applied(a, b, m) && pos_history_len(b) == pos_history_len(a) + 1 && pos_ply(
            b,
        ) == pos_ply(a) + 1,
        Err(e) => if e.detected_after_apply() {
            move_applied(a, b, m) && pos_history_len(b) == pos_history_len(a) && pos_ply(b)
                == pos_ply(a) + 1
        } else {
            b == a
        },
    }
}

/// The move keeps the authority's unchecked counter arithmetic in
/// bounds: the 16-bit ply counter is below its ceiling, and a capture
/// does not push an 8-bit hand count past its ceiling.  (A captured king
/// never enters a hand, so it needs no bound.)
pub open spec fn attempt_admissible(p: shogi::Position, m: Move) -> bool {
    &&& pos_ply(p) < 0xffff
    &&& (match m {
        Move::Normal { from: _, to, promote: _ } => match pos_piece_at(
            p,
            to.file as int,
            to.rank as int,
        ) {
            Some(cap) => cap.piece_type == PieceType::King || pos_hand(p, captured_gain(cap))
                < 255,
            None => true,
        },
        Move::Drop { .. } => true,
    })
}

/// The refusals `make_move` settles before anything else: a normal move
/// from an empty cell and a drop on an occupied cell are inconsistent,
/// and a pawn drop that passes the earlier checks but doubles a pawn in
/// its file is refused as nifu.
pub open spec fn move_refusals(a: shogi::Position, m: Move, r: Result<(), MoveRejection>) -> bool {
    match m {
        Move::Normal { from, to: _, promote: _ } => pos_piece_at(
            a,
            from.file as int,
            from.rank as int,
        ) is None ==> r == Err::<(), MoveRejection>(MoveRejection::Inconsistent),
        Move::Drop { to, piece_type } => {
            let pc = Piece { piece_type, color: pos_side(a) };
            &&& pos_piece_at(a, to.file as int, to.rank as int) is Some ==> r == Err::<
                (),
                MoveRejection,
            >(MoveRejection::Inconsistent)
            &&& (piece_type == PieceType::Pawn && pos_piece_at(
                a,
                to.file as int,
                to.rank as int,
            ) is None && pos_hand(a, pc) > 0 && pc.spec_is_placeable_at(to) && pawn_in_file(
                a,
                to.file as int,
                pos_side(a),
            )) ==> r == Err::<(), MoveRejection>(MoveRejection::Nifu)
        },
    }
}

/// Maps an authority move error onto the library's own error.
/// Relies on the variant set of `shogi::MoveError`; each variant maps to
/// the library error of the same name, the payload of `Inconsistent` is
/// dropped.
#[verifier::external_body]
fn move_error_of(e: shogi::MoveError) -> (r: MoveRejection)
    ensures
        r == move_error_repr(e),
{
    match e {
        shogi::MoveError::InCheck => MoveRejection::InCheck,
        shogi::MoveError::Nifu => MoveRejection::Nifu,
        shogi::MoveError::Uchifuzume => MoveRejection::Uchifuzume,
        shogi::MoveError::PerpetualCheckWin => MoveRejection::PerpetualCheckWin,
        shogi::MoveError::PerpetualCheckLose => MoveRejection::PerpetualCheckLose,
        shogi::MoveError::EnemysTurn => MoveRejection::EnemysTurn,
        shogi::MoveError::NonMovablePiece => MoveRejection::NonMovablePiece,
        shogi::MoveError::Inconsistent(_) => MoveRejection::Inconsistent,
        shogi::MoveError::Repetition => MoveRejection::Repetition,
    }
}

/// Maps an authority position-string error onto the library's own error.
/// Relies on the variant set of `shogi::SfenError`; each variant maps to
/// the library error of the same name, payloads are dropped.
#[verifier::external_body]
fn sfen_error_of(e: shogi::SfenError) -> (r: SfenRejection)
    ensures
        r == sfen_error_repr(e),
{
    match e {
        shogi::SfenError::MissingDataFields => SfenRejection::MissingDataFields,
        shogi::SfenError::IllegalPieceType => SfenRejection::IllegalPieceType,
        shogi::SfenError::IllegalSideToMove => SfenRejection::IllegalSideToMove,
        shogi::SfenError::IllegalMoveCount(_) => SfenRejection::IllegalMoveCount,
        shogi::SfenError::IllegalMove => SfenRejection::IllegalMove,
        shogi::SfenError::IllegalBoardState => SfenRejection::IllegalBoardState,
    }
}

/// Builds the standard starting position.
/// Relies on `shogi::bitboard::Factory::init` preparing the move tables,
/// on `shogi::Position::new` returning an empty position with no history,
/// and on `shogi::Position::set_sfen` reading the standard start string:
/// White's army on ranks 0 to 2, Black's mirrored on ranks 6 to 8, Black
/// to move, both hands empty.
#[verifier::external_body]
pub(crate) fn start_position() -> (p: shogi::Position)
    ensures
        forall|f: int, r: int|
            0 <= f < 9 && 0 <= r < 9 ==> #[trigger] pos_piece_at(p, f, r) == start_cell(f, r),
        pos_side(p) == Color::Black,
        forall|pc: Piece| #[trigger] pos_hand(p, pc) == 0,
        pos_history_len(p) == 0,
        pos_ply(p) == 1,
        pos_undo_safe(p),
{
    shogi::bitboard::Factory::init();
    let mut p = shogi::Position::new();
    p.set_sfen("lnsgkgsnl/1r5b1/ppppppppp/9/9/9/PPPPPPPPP/1B5R1/LNSGKGSNL b - 1")
        .expect("the standard start string is well-formed");
    p
}

/// Builds an empty position: no pieces, empty hands, Black to move, no
/// recorded history.  Relies on `shogi::bitboard::Factory::init`
/// preparing the move tables and on `shogi::Position::new`.
#[verifier::external_body]
pub(crate) fn new_position() -> (p: shogi::Position)
    ensures
        forall|f: int, r: int|
            0 <= f < 9 && 0 <= r < 9 ==> #[trigger] pos_piece_at(p, f, r) is None,
        pos_side(p) == Color::Black,
        forall|pc: Piece| #[trigger] pos_hand(p, pc) == 0,
        pos_history_len(p) == 0,
        pos_ply(p) == 1,
        pos_undo_safe(p),
{
    shogi::bitboard::Factory::init();
    shogi::Position::new()
}

/// Relies on `shogi::Position::ply`, a read-only accessor of the ply
/// counter.
#[verifier::external_body]
pub(crate) fn ply_count(pos: &shogi::Position) -> (r: u16)
    ensures
        r as nat == pos_ply(*pos),
{
    pos.ply()
}

/// Relies on `shogi::Position::piece_at`, a read-only accessor of the
/// board cell at the given coordinates.
#[verifier::external_body]
pub(crate) fn piece_at(pos: &shogi::Position, file: u8, rank: u8) -> (r: Option<Piece>)
    requires
        file < 9,
        rank < 9,
    ensures
        r == pos_piece_at(*pos, file as int, rank as int),
{
    let sq = shogi::Square::new(file, rank).unwrap();
    match *pos.piece_at(sq) {
        Some(p) => Some(
            Piece {
                piece_type: PieceType::from_index(p.piece_type.index()).unwrap(),
                color: if p.color == shogi::Color::Black { Color::Black } else { Color::White },
            },
        ),
        None => None,
    }
}

/// Relies on `shogi::Position::side_to_move`, a read-only accessor.
#[verifier::external_body]
pub(crate) fn side_to_move(pos: &shogi::Position) -> (r: Color)
    ensures
        r == pos_side(*pos),
{
    if pos.side_to_move() == shogi::Color::Black {
        Color::Black
    } else {
        Color::White
    }
}

/// Relies on `shogi::Position::hand`, a read-only accessor of the count
/// of one hand piece.
#[verifier::external_body]
pub(crate) fn hand_count(pos: &shogi::Position, pc: Piece) -> (r: u8)
    ensures
        r as nat == pos_hand(*pos, pc),
{
    let spc = shogi::Piece {
        piece_type: shogi::PieceType::iter().nth(pc.piece_type.index()).unwrap(),
        color: if pc.color == Color::Black { shogi::Color::Black } else { shogi::Color::White },
    };
    pos.hand(spc)
}

/// Relies on `shogi::Position::move_history`, a read-only accessor of the
/// list of moves made so far.
#[verifier::external_body]
pub(crate) fn has_history(pos: &shogi::Position) -> (r: bool)
    ensures
        r == (pos_history_len(*pos) > 0),
{
    !pos.move_history().is_empty()
}

/// Relies on `shogi::Position::move_candidates`: the returned squares are
/// exactly the candidate set, and every one lies on the board.  The
/// crate's move tables are prepared before any position exists, by the
/// builders below, so the result depends on the position value alone.
#[verifier::external_body]
pub(crate) fn move_candidates(pos: &shogi::Position, from: Square, pc: Piece) -> (r: Vec<Square>)
    requires
        from.valid(),
    ensures
        forall|s: Square| #[trigger] r@.contains(s) <==> pos_candidates(*pos, from, pc).contains(s),
        forall|i: int| 0 <= i < r@.len() ==> (#[trigger] r@[i]).valid(),
{
    let sq = shogi::Square::new(from.file, from.rank).unwrap();
    let spc = shogi::Piece {
        piece_type: shogi::PieceType::iter().nth(pc.piece_type.index()).unwrap(),
        color: if pc.color == Color::Black { shogi::Color::Black } else { shogi::Color::White },
    };
    let mut v = Vec::new();
    for s in pos.move_candidates(sq, spc) {
        v.push(Square { file: s.file(), rank: s.rank() });
    }
    v
}

/// Relies on `shogi::Position::make_move`.  Its verdict is a function of
/// the position value and the move (the move tables are prepared before
/// any position exists).  The move is all-or-nothing except for the
/// repetition family of errors, which the crate detects only after
/// applying the move (and without recording it, so the history is no
/// longer undo-safe then); an empty source cell and an occupied drop
/// target are refused as inconsistent before anything changes, and a
/// double-pawn drop that passes the earlier checks is refused as nifu.
/// The ply and hand counters are incremented without overflow checks, so
/// the move must be admissible.
#[verifier::external_body]
pub(crate) fn apply_move(pos: &mut shogi::Position, m: Move) -> (r: Result<(), MoveRejection>)
    requires
        m.valid(),
        attempt_admissible(*old(pos), m),
    ensures
        r == pos_verdict(*old(pos), m),
        apply_move_outcome(*old(pos), *final(pos), m, r),
        move_refusals(*old(pos), m, r),
        pos_undo_safe(*old(pos)) && r is Ok ==> pos_undo_safe(*final(pos)),
        r is Ok ==> pos_last_move(*final(pos)) == m && pos_last_captured(*final(pos)) == (match m {
            Move::Normal { from: _, to, promote: _ } => pos_piece_at(
                *old(pos),
                to.file as int,
                to.rank as int,
            ),
            Move::Drop { .. } => None,
        }),
{
    let conv = |sq: Square| shogi::Square::new(sq.file, sq.rank).unwrap();
    let sm = match m {
        Move::Normal { from, to, promote } => shogi::Move::Normal {
            from: conv(from),
            to: conv(to),
            promote,
        },
        Move::Drop { to, piece_type } => shogi::Move::Drop {
            to: conv(to),
            piece_type: shogi::PieceType::iter().nth(piece_type.index()).unwrap(),
        },
    };
    pos.make_move(sm).map_err(move_error_of)
}

/// Relies on `shogi::Position::unmake_move`: with an empty history it is
/// a silent no-op returning `Ok`; otherwise it pops the most recent
/// record and reverts it exactly — the old position is the new one with
/// the popped record's move applied, and the record's captured piece (if
/// any) stands again on the move's target square.  The position must be
/// undo-safe: against a history that does not replay, the crate's
/// unchecked counter arithmetic could wrap.  On an undo-safe position
/// every record reverts cleanly.
#[verifier::external_body]
pub(crate) fn unmake_move(pos: &mut shogi::Position) -> (r: Result<(), MoveRejection>)
    requires
        pos_undo_safe(*old(pos)),
    ensures
        r is Ok,
        pos_undo_safe(*final(pos)),
        pos_history_len(*old(pos)) == 0 ==> *final(pos) == *old(pos),
        pos_history_len(*old(pos)) > 0 ==> pos_history_len(*final(pos)) == pos_history_len(
            *old(pos),
        ) - 1 && pos_ply(*final(pos)) + 1 == pos_ply(*old(pos)) && pos_last_move(
            *old(pos),
        ).valid() && move_applied(*final(pos), *old(pos), pos_last_move(*old(pos))) && (match
        pos_last_move(*old(pos)) {
            Move::Normal { from: _, to, promote: _ } => pos_piece_at(
                *final(pos),
                to.file as int,
                to.rank as int,
            ) == pos_last_captured(*old(pos)),
            Move::Drop { .. } => true,
        }),
{
    pos.unmake_move().map_err(move_error_of)
}

/// The hand field of a position string (its third whitespace-separated
/// token) carries no count of three or more digits.  The authority reads
/// hand counts into an 8-bit accumulator, so a longer count would
/// overflow it; two-digit counts stay below 100 and are always safe.
pub open spec fn sfen_hand_field_bounded(s: Seq<char>) -> bool {
    match crate::text::third_token_of(s) {
        Some(t) => crate::text::no_triple_digit(t),
        None => true,
    }
}

/// The position string is plain and safe for the authority's reader:
/// ASCII whitespace only (so the field positions are the ones checked), a
/// bounded hand field, and no fifth token — in particular no trailing
/// move list, whose replay inside the authority runs unguarded.
pub open spec fn sfen_input_bounded(s: Seq<char>) -> bool {
    &&& crate::text::spaces_are_ascii(s)
    &&& sfen_hand_field_bounded(s)
    &&& crate::text::nth_token_of(s, 4) is None
}

/// Relies on `shogi::Position::set_sfen`, reading into a freshly built
/// empty position — the crate only overwrites the cells and hand counts
/// a string mentions, so both the verdict and the result are functions of
/// the string alone just when nothing stale can survive underneath.  The
/// string must be plain: ASCII whitespace only (so the field positions
/// are the ones checked), a bounded hand field (the crate reads hand
/// counts into an unchecked 8-bit accumulator), and no fifth token — in
/// particular no trailing move list, whose replay inside the crate runs
/// without any of the session's counter and desynchronization guards.
/// Without a move list nothing is ever applied, so the result keeps an
/// empty history and is trivially undo-safe.
#[verifier::external_body]
pub(crate) fn set_sfen(pos: &mut shogi::Position, s: &str) -> (r: Result<(), SfenRejection>)
    requires
        forall|f: int, r: int|
            0 <= f < 9 && 0 <= r < 9 ==> #[trigger] pos_piece_at(*old(pos), f, r) is None,
        forall|pc: Piece| #[trigger] pos_hand(*old(pos), pc) == 0,
        pos_history_len(*old(pos)) == 0,
        sfen_input_bounded(s@),
    ensures
        r is Ok <==> sfen_accepted(s@),
        pos_undo_safe(*final(pos)),
        pos_history_len(*final(pos)) == 0,
        r is Ok ==> forall|f: int, r2: int|
            0 <= f < 9 && 0 <= r2 < 9 ==> #[trigger] pos_piece_at(*final(pos), f, r2) == sfen_cell(
                s@,
                f,
                r2,
            ),
        r is Ok ==> pos_side(*final(pos)) == sfen_side(s@),
        r is Ok ==> forall|pc: Piece| #[trigger] pos_hand(*final(pos), pc) == sfen_hand(s@, pc),
{
    pos.set_sfen(s).map_err(sfen_error_of)
}

/// Relies on `shogi::Position::to_sfen`, whose result depends on the
/// position value alone.
#[verifier::external_body]
pub(crate) fn to_sfen(pos: &shogi::Position) -> (r: String)
    ensures
        r@ == pos_sfen(*pos),
{
    pos.to_sfen()
}

/// Relies on `shogi::Move::from_sfen`: the result depends on the token
/// alone, and every square of a returned move lies on the board.  The
/// token must be ASCII: the crate mixes byte lengths with character
/// positions and byte slicing, which panics on multi-byte characters.
#[verifier::external_body]
pub(crate) fn move_from_usi(s: &str) -> (r: Option<Move>)
    requires
        crate::text::ascii_chars(s@),
    ensures
        r == usi_move(s@),
        r matches Some(m) ==> m.valid(),
{
    let conv = |sq: shogi::Square| Square { file: sq.file(), rank: sq.rank() };
    match shogi::Move::from_sfen(s) {
        Some(shogi::Move::Normal { from, to, promote }) => Some(
            Move::Normal { from: conv(from), to: conv(to), promote },
        ),
        Some(shogi::Move::Drop { to, piece_type }) => Some(
            Move::Drop {
                to: conv(to),
                piece_type: PieceType::from_index(piece_type.index()).unwrap(),
            },
        ),
        None => None,
    }
}

} // verus!
