//! The game session: the selection state machine, the move attempts, the
//! engine think requests and the session lifecycle (new game, undo).
//!
//! All state is mutated from the owner's tick alone.  Background work —
//! the engine subprocess and the analog device — only hands plain values
//! in: an output line, a decoded reading.  Every click-equivalent event
//! lands in [`ShogiGame::handle_piece_move`] or
//! [`ShogiGame::handle_hand_click`], which read and mutate the board
//! projection and call the rules authority to validate and apply moves.
//! Moves are all-or-nothing: on a rejection the session records a
//! human-readable error and returns to an idle selection.  The one
//! deliberate exception is the authority's repetition family of verdicts,
//! which it detects only after applying the move: the session surfaces
//! the error, keeps the applied position, and refuses undo from then on,
//! since the recorded history no longer matches the position.

use vstd::prelude::*;
use crate::piece::{Color, Piece, PieceType, Square};
use crate::moves::{Move, MoveRejection, move_usi};
use crate::board::{Board, Selection, drop_squares, spec_hand_slot, hand_slot};
use crate::engine::{
    EngineRequest, validate_duration, line_is_bestmove, is_bestmove_line, duration_of,
};
use crate::text::{
    second_token, second_token_of, third_token, nth_token, nth_token_of, has_no_triple_digit,
    spaces_are_ascii_check, chars_are_ascii, ascii_chars,
};
use crate::authority;
use crate::authority::{
    pos_piece_at, pos_side, pos_hand, pos_history_len, pos_candidates, pos_sfen, pos_verdict,
    apply_move_outcome, move_refusals, move_applied, attempt_admissible, captured_gain,
    usi_move, sfen_accepted, sfen_input_bounded, sfen_cell, sfen_side, sfen_hand, pos_last_move,
    pos_last_captured, pos_ply, pos_undo_safe, start_cell,
};

verus! {

/// Whether the square holds a piece of the side to move.
pub open spec fn square_occupied_by_mover(p: shogi::Position, t: Square) -> bool {
    match pos_piece_at(p, t.file as int, t.rank as int) {
        Some(pc) => pc.color == pos_side(p),
        None => false,
    }
}

/// The piece standing on the square, where there is one.
pub open spec fn piece_on(p: shogi::Position, t: Square) -> Piece {
    match pos_piece_at(p, t.file as int, t.rank as int) {
        Some(pc) => pc,
        None => Piece { piece_type: PieceType::King, color: Color::Black },
    }
}

/// The selection after a click on square `t`: clicking the selected
/// square toggles back to idle, clicking a piece of the side to move
/// (re)selects it, and any other click — a move attempt, a drop attempt
/// or a cancel — ends idle.
pub open spec fn square_click_selection(p: shogi::Position, sel: Selection, t: Square) -> Selection {
    match sel {
        Selection::PieceSelected(s) => if t == s {
            Selection::Idle
        } else if square_occupied_by_mover(p, t) {
            Selection::PieceSelected(t)
        } else {
            Selection::Idle
        },
        _ => if square_occupied_by_mover(p, t) {
            Selection::PieceSelected(t)
        } else {
            Selection::Idle
        },
    }
}

/// The selection after a click on hand slot `i`: ignored unless the slot
/// holds a piece of the side to move; then a click on the selected slot
/// toggles back to idle and any other click selects the slot.
pub open spec fn hand_click_selection(p: shogi::Position, sel: Selection, i: usize) -> Selection {
    if pos_hand(p, spec_hand_slot(i as int)) > 0 && spec_hand_slot(i as int).color == pos_side(p) {
        if sel == Selection::HandSelected(i) {
            Selection::Idle
        } else {
            Selection::HandSelected(i)
        }
    } else {
        sel
    }
}

/// Whether the manual promotion rule forces `promote` on a move of the
/// piece at `s` to `t`: the flag is set, the piece is not yet promoted,
/// and `t` lies in the mover's promotion zone.
pub open spec fn forced_promotion(p: shogi::Position, flag: bool, s: Square, t: Square) -> bool {
    flag && !piece_on(p, s).piece_type.spec_is_promoted() && t.spec_in_promotion_zone(pos_side(p))
}

/// The normal move built for a click from selection `s` to target `t`.
pub open spec fn built_normal_move(p: shogi::Position, flag: bool, s: Square, t: Square) -> Move {
    Move::Normal { from: s, to: t, promote: forced_promotion(p, flag, s, t) }
}

/// The message recorded by a move attempt: the move's own notation on
/// success, the authority's complaint on a rejection.
pub open spec fn attempt_message(m: Move, r: Result<(), MoveRejection>) -> Seq<char> {
    match r {
        Ok(()) => move_usi(m),
        Err(e) => "Error in make_move: "@ + e.spec_message(),
    }
}

/// A move attempt took place: some verdict `r` explains the new position
/// and the recorded message, and where the attempt was admissible (the
/// authority's counters in bounds) that verdict is the authority's own —
/// in particular, a move the authority accepts is really applied.
pub open spec fn move_attempt_outcome(
    a: shogi::Position,
    b: shogi::Position,
    m: Move,
    msg: Seq<char>,
) -> bool {
    exists|r: Result<(), MoveRejection>|
        {
            &&& #[trigger] apply_move_outcome(a, b, m, r)
            &&& msg == attempt_message(m, r)
            &&& (attempt_admissible(a, m) ==> r == pos_verdict(a, m))
        }
}

/// The interactive game session.
pub struct ShogiGame {
    /// The rules authority's position: the single source of truth.
    pub pos: shogi::Position,
    /// The board projection and selection state shown to the renderer.
    pub board: Board,
    /// Whether the manual promotion rule is active.
    pub promotion_flag: bool,
    /// The last human-readable message: a move notation or an error.
    pub error_message: String,
    /// The configured engine think time, as entered (validated on use).
    pub engine_ms: String,
    /// The last decoded device reading `(switch, rank, file)`.
    pub joystick_state: (i32, i32, i32),
    /// Whether the authority's recorded history has fallen out of step
    /// with its position (a repetition verdict applies the move without
    /// recording it); undo is refused until the next reset.
    pub history_desynced: bool,
}

impl ShogiGame {
    /// The board is a faithful projection of the position, and the
    /// selection agrees with the highlight mask: an idle selection shows
    /// no highlights, a selected piece highlights exactly the authority's
    /// candidate squares, a selected hand slot (which must hold a piece
    /// of the side to move) highlights exactly the drop candidates.
    pub open spec fn wf(self) -> bool {
        &&& self.board.wf()
        &&& self.board.cells_match(self.pos)
        &&& self.board.hand_matches(self.pos)
        &&& (self.history_desynced || pos_undo_safe(self.pos))
        &&& match self.board.selection {
            Selection::Idle => self.board.mask_empty(),
            Selection::PieceSelected(s) => {
                &&& s.valid()
                &&& square_occupied_by_mover(self.pos, s)
                &&& self.board.mask_is(pos_candidates(self.pos, s, piece_on(self.pos, s)))
            },
            Selection::HandSelected(i) => {
                &&& i < 14
                &&& spec_hand_slot(i as int).color == pos_side(self.pos)
                &&& pos_hand(self.pos, spec_hand_slot(i as int)) > 0
                &&& self.board.mask_is(
                    drop_squares(self.pos, spec_hand_slot(i as int).piece_type),
                )
            },
        }
    }

    /// The settings and device state other than the board and position.
    pub open spec fn same_settings(self, other: ShogiGame) -> bool {
        &&& self.promotion_flag == other.promotion_flag
        &&& self.engine_ms == other.engine_ms
        &&& self.joystick_state == other.joystick_state
    }

    /// Creates a session over the standard starting position, with the
    /// default think time of 3000 ms, nothing selected and no message.
    pub fn new() -> (r: ShogiGame)
        ensures
            r.wf(),
            forall|f: int, r2: int|
                0 <= f < 9 && 0 <= r2 < 9 ==> r.board.cell(f, r2) == #[trigger] start_cell(f, r2),
            pos_side(r.pos) == Color::Black,
            forall|pc: Piece| #[trigger] pos_hand(r.pos, pc) == 0,
            pos_history_len(r.pos) == 0,
            pos_ply(r.pos) == 1,
            r.board.selection == Selection::Idle,
            r.board.mask_empty(),
            r.promotion_flag == false,
            r.error_message@.len() == 0,
            r.engine_ms@ == "3000"@,
            r.joystick_state == (-1int as i32, -1int as i32, -1int as i32),
            r.history_desynced == false,
    {
        let pos = authority::start_position();
        let mut board = Board::new();
        board.update_board(&pos);
        proof {
            assert forall|f: int, r2: int| 0 <= f < 9 && 0 <= r2 < 9 implies board.cell(f, r2)
                == #[trigger] start_cell(f, r2) by {
                assert(pos_piece_at(pos, f, r2) == start_cell(f, r2));
            }
        }
        ShogiGame {
            pos,
            board,
            promotion_flag: false,
            error_message: String::new(),
            engine_ms: String::from_str("3000"),
            joystick_state: (-1, -1, -1),
            history_desynced: false,
        }
    }

    /// The command that starts the engine handshake.
    pub fn startup_command() -> (r: &'static str)
        ensures
            r@ == "isready"@,
    {
        "isready"
    }

    /// Tests whether a move attempt keeps the authority's unchecked
    /// counters in bounds: the ply counter below its 16-bit ceiling, and,
    /// for a capture, the gained hand count below its 8-bit ceiling.
    fn move_admissible(&self, m: Move) -> (r: bool)
        requires
            m.valid(),
        ensures
            r == attempt_admissible(self.pos, m),
    {
        if authority::ply_count(&self.pos) == 0xffff {
            return false;
        }
        match m {
            Move::Normal { from: _, to, promote: _ } => {
                match authority::piece_at(&self.pos, to.file, to.rank) {
                    Some(cap) => {
                        if cap.piece_type == PieceType::King {
                            true
                        } else {
                            let base = match cap.piece_type.unpromote() {
                                Some(b) => b,
                                None => cap.piece_type,
                            };
                            let gained = Piece { piece_type: base, color: cap.color.flip() };
                            proof {
                                assert(gained == captured_gain(cap));
                            }
                            authority::hand_count(&self.pos, gained) < 255
                        }
                    },
                    None => true,
                }
            },
            Move::Drop { .. } => true,
        }
    }

    /// Attempts a constructed move: the authority accepts or rejects it
    /// all-or-nothing, the board is re-projected, the selection is reset,
    /// and the message records the move or the rejection.  A normal move
    /// from an empty square is always rejected with the board unchanged.
    /// A session whose ply counter has reached the authority's 16-bit
    /// ceiling refuses every further move as inconsistent.
    pub fn try_move(&mut self, m: Move) -> (r: Result<(), MoveRejection>)
        requires
            old(self).wf(),
            m.valid(),
        ensures
            final(self).wf(),
            apply_move_outcome(old(self).pos, final(self).pos, m, r),
            attempt_admissible(old(self).pos, m) ==> r == pos_verdict(old(self).pos, m)
                && move_refusals(old(self).pos, m, r),
            !attempt_admissible(old(self).pos, m) ==> r == Err::<(), MoveRejection>(
                MoveRejection::Inconsistent,
            ) && final(self).pos == old(self).pos,
            final(self).error_message@ == attempt_message(m, r),
            final(self).board.selection == Selection::Idle,
            final(self).board.mask_empty(),
            final(self).same_settings(*old(self)),
            (match r {
                Err(e) => if e.detected_after_apply() {
                    final(self).history_desynced
                } else {
                    final(self).history_desynced == old(self).history_desynced
                },
                Ok(()) => final(self).history_desynced == old(self).history_desynced,
            }),
    {
        if !self.move_admissible(m) {
            let mut msg = String::from_str("Error in make_move: ");
            msg.append(MoveRejection::Inconsistent.message());
            self.error_message = msg;
            self.board.reset_activity();
            return Err(MoveRejection::Inconsistent);
        }
        let r = authority::apply_move(&mut self.pos, m);
        match &r {
            Ok(_) => {
                self.error_message = m.to_usi();
            },
            Err(e) => {
                if e.after_apply() {
                    self.history_desynced = true;
                }
                let mut msg = String::from_str("Error in make_move: ");
                msg.append(e.message());
                self.error_message = msg;
            },
        }
        self.board.update_board(&self.pos);
        self.board.reset_activity();
        r
    }

    /// Resolves a click on the board square at `(rank, file)` against the
    /// current selection, as the transition table prescribes: select or
    /// reselect an own piece (highlighting exactly the authority's
    /// candidates), toggle off the selected square, attempt the built
    /// normal move on a highlighted target, attempt the drop of the
    /// selected hand piece, or cancel.
    pub fn handle_piece_move(&mut self, rank: usize, file: usize)
        requires
            old(self).wf(),
            rank < 9,
            file < 9,
        ensures
            final(self).wf(),
            final(self).same_settings(*old(self)),
            final(self).board.selection == square_click_selection(
                old(self).pos,
                old(self).board.selection,
                (Square { file: file as u8, rank: rank as u8 }),
            ),
            final(self).board.selection is Idle ==> final(self).board.mask_empty(),
            // selecting or reselecting: the position and message stay, the
            // mask becomes exactly the candidate set of the clicked piece
            square_occupied_by_mover(old(self).pos, (Square { file: file as u8, rank: rank as u8 }))
                && old(self).board.selection != Selection::PieceSelected(
                (Square { file: file as u8, rank: rank as u8 }),
            ) ==> final(self).pos == old(self).pos && final(self).error_message == old(self).error_message && final(self).history_desynced == old(self).history_desynced && final(self).board.mask_is(
                pos_candidates(
                    old(self).pos,
                    (Square { file: file as u8, rank: rank as u8 }),
                    piece_on(old(self).pos, (Square { file: file as u8, rank: rank as u8 })),
                ),
            ),
            // toggle-off: click on the selected square changes nothing else
            old(self).board.selection == Selection::PieceSelected(
                (Square { file: file as u8, rank: rank as u8 }),
            ) ==> final(self).pos == old(self).pos && final(self).error_message == old(self).error_message && final(self).history_desynced == old(self).history_desynced,
            // move attempt: a highlighted target that is not an own piece
            (match old(self).board.selection {
                Selection::PieceSelected(s) => s != (Square { file: file as u8, rank: rank as u8 })
                    && !square_occupied_by_mover(
                    old(self).pos,
                    (Square { file: file as u8, rank: rank as u8 }),
                ) && old(self).board.mask(file as int, rank as int) ==> move_attempt_outcome(
                    old(self).pos,
                    final(self).pos,
                    built_normal_move(
                        old(self).pos,
                        old(self).promotion_flag,
                        s,
                        (Square { file: file as u8, rank: rank as u8 }),
                    ),
                    final(self).error_message@,
                ),
                _ => true,
            }),
            // cancel: a click nowhere meaningful changes nothing else
            (match old(self).board.selection {
                Selection::PieceSelected(s) => s != (Square { file: file as u8, rank: rank as u8 })
                    && !square_occupied_by_mover(
                    old(self).pos,
                    (Square { file: file as u8, rank: rank as u8 }),
                ) && !old(self).board.mask(file as int, rank as int) ==> final(self).pos == old(self).pos && final(self).error_message == old(self).error_message && final(self).history_desynced == old(self).history_desynced,
                Selection::Idle => !square_occupied_by_mover(
                    old(self).pos,
                    (Square { file: file as u8, rank: rank as u8 }),
                ) ==> final(self).pos == old(self).pos && final(self).error_message == old(self).error_message && final(self).history_desynced == old(self).history_desynced,
                _ => true,
            }),
            // drop attempt: hand selected, target not an own piece
            (match old(self).board.selection {
                Selection::HandSelected(h) => !square_occupied_by_mover(
                    old(self).pos,
                    (Square { file: file as u8, rank: rank as u8 }),
                ) ==> move_attempt_outcome(
                    old(self).pos,
                    final(self).pos,
                    (Move::Drop {
                        to: (Square { file: file as u8, rank: rank as u8 }),
                        piece_type: spec_hand_slot(h as int).piece_type,
                    }),
                    final(self).error_message@,
                ),
                _ => true,
            }),
    {
        let t = Square { file: file as u8, rank: rank as u8 };
        let side = authority::side_to_move(&self.pos);
        let cell = self.board.cells[rank * 9 + file];
        let own = match cell {
            Some(pc) => pc.color == side,
            None => false,
        };
        proof {
            assert(self.board.cell(file as int, rank as int) == pos_piece_at(
                self.pos,
                file as int,
                rank as int,
            ));
            assert(own == square_occupied_by_mover(self.pos, t));
        }
        match self.board.selection {
            Selection::PieceSelected(s) => {
                if s == t {
                    self.board.reset_activity();
                } else if own {
                    let pc = cell.unwrap();
                    self.board.reset_activity();
                    self.board.set_active(rank as u8, file as u8);
                    self.board.set_active_moves(&self.pos, Some(t), pc);
                } else if self.board.active_moves[rank * 9 + file] {
                    let from_cell = self.board.cells[s.rank as usize * 9 + s.file as usize];
                    let moving = from_cell.unwrap();
                    proof {
                        assert(self.board.cell(s.file as int, s.rank as int) == pos_piece_at(
                            self.pos,
                            s.file as int,
                            s.rank as int,
                        ));
                        assert(moving == piece_on(self.pos, s));
                    }
                    let promote = self.promotion_flag && !moving.piece_type.is_promoted()
                        && t.in_promotion_zone(side);
                    let m = Move::Normal { from: s, to: t, promote };
                    proof {
                        assert(m == built_normal_move(old(self).pos, old(self).promotion_flag, s, t));
                    }
                    let r = self.try_move(m);
                    proof {
                        assert(apply_move_outcome(old(self).pos, self.pos, m, r));
                        assert(self.error_message@ == attempt_message(m, r));
                    }
                } else {
                    self.board.reset_activity();
                }
            },
            Selection::Idle => {
                if own {
                    let pc = cell.unwrap();
                    self.board.reset_activity();
                    self.board.set_active(rank as u8, file as u8);
                    self.board.set_active_moves(&self.pos, Some(t), pc);
                }
            },
            Selection::HandSelected(h) => {
                if own {
                    let pc = cell.unwrap();
                    self.board.reset_activity();
                    self.board.set_active(rank as u8, file as u8);
                    self.board.set_active_moves(&self.pos, Some(t), pc);
                } else {
                    let dropped = hand_slot(h);
                    let m = Move::Drop { to: t, piece_type: dropped.piece_type };
                    let r = self.try_move(m);
                    proof {
                        assert(apply_move_outcome(old(self).pos, self.pos, m, r));
                    }
                }
            },
        }
    }

    /// Resolves a click on hand slot `i`: ignored unless the slot holds a
    /// piece of the side to move; then it toggles the slot off or selects
    /// it, highlighting exactly the drop candidates of its piece kind.
    pub fn handle_hand_click(&mut self, i: usize)
        requires
            old(self).wf(),
            i < 14,
        ensures
            final(self).wf(),
            final(self).same_settings(*old(self)),
            final(self).pos == old(self).pos,
            final(self).error_message == old(self).error_message,
            final(self).history_desynced == old(self).history_desynced,
            final(self).board.selection == hand_click_selection(
                old(self).pos,
                old(self).board.selection,
                i,
            ),
            final(self).board.selection is Idle ==> final(self).board.mask_empty(),
            final(self).board.selection == Selection::HandSelected(i) ==> final(self).board.mask_is(drop_squares(old(self).pos, spec_hand_slot(i as int).piece_type)),
    {
        let pc = hand_slot(i);
        let side = authority::side_to_move(&self.pos);
        let count = self.board.hand[i];
        proof {
            assert(self.board.hand@[i as int] as nat == pos_hand(self.pos, spec_hand_slot(i as int)));
        }
        if count == 0 || !(pc.color == side) {
            return ;
        }
        let toggled = self.board.selection == Selection::HandSelected(i);
        self.board.reset_activity();
        if !toggled {
            self.board.set_active_hand(i);
            self.board.set_active_moves(&self.pos, None, pc);
        }
    }

    /// Validates the configured think time and, where it is accepted,
    /// builds the engine request: the position command carries the
    /// authority's current position string, and the go command forwards
    /// the configured duration verbatim.  On a validation error the
    /// engine is not contacted and the error is recorded.
    pub fn make_engine_request(&mut self) -> (r: Option<EngineRequest>)
        requires
            old(self).wf(),
        ensures
            final(self).wf(),
            final(self).pos == old(self).pos,
            final(self).board == old(self).board,
            final(self).same_settings(*old(self)),
            (match duration_of(old(self).engine_ms@) {
                Ok(_) => {
                    &&& r is Some
                    &&& r.unwrap().position_command@ == "position sfen "@ + pos_sfen(old(self).pos)
                    &&& r.unwrap().go_command@ == "go byoyomi "@ + old(self).engine_ms@
                    &&& final(self).error_message == old(self).error_message
                },
                Err(e) => r is None && final(self).error_message@ == e.spec_message(),
            }),
    {
        match validate_duration(self.engine_ms.as_str()) {
            Err(e) => {
                self.error_message = String::from_str(e.message());
                None
            },
            Ok(_t) => {
                let sfen = authority::to_sfen(&self.pos);
                let mut position_command = String::from_str("position sfen ");
                position_command.append(sfen.as_str());
                let mut go_command = String::from_str("go byoyomi ");
                go_command.append(self.engine_ms.as_str());
                Some(EngineRequest { position_command, go_command })
            },
        }
    }

    /// Consumes one engine output line during a pending think request.
    /// Lines before the `bestmove` reply are ignored; the reply itself
    /// finishes the request: its second token is decoded through the
    /// authority and applied as a move, and a missing or undecodable
    /// token is recorded as an error with the position unchanged.
    pub fn apply_engine_line(&mut self, line: &str) -> (done: bool)
        requires
            old(self).wf(),
        ensures
            final(self).wf(),
            final(self).same_settings(*old(self)),
            done == is_bestmove_line(line@),
            !is_bestmove_line(line@) ==> *final(self) == *old(self),
            is_bestmove_line(line@) && second_token_of(line@) is None ==> final(self).pos == old(self).pos && final(self).board == old(self).board && final(self).error_message@
                == "the engine reply holds no move token"@,
            (match second_token_of(line@) {
                Some(tok) => is_bestmove_line(line@) ==> if !ascii_chars(tok) {
                    final(self).pos == old(self).pos && final(self).board == old(self).board
                        && final(self).error_message@ == "the engine move could not be decoded"@
                } else {
                    (match usi_move(tok) {
                        Some(m) => move_attempt_outcome(
                            old(self).pos,
                            final(self).pos,
                            m,
                            final(self).error_message@,
                        ) && final(self).board.selection == Selection::Idle && final(self).board.mask_empty(),
                        None => final(self).pos == old(self).pos && final(self).board == old(self).board && final(self).error_message@
                            == "the engine move could not be decoded"@,
                    })
                },
                None => true,
            }),
    {
        if !line_is_bestmove(line) {
            return false;
        }
        match second_token(line) {
            None => {
                self.error_message = String::from_str("the engine reply holds no move token");
                true
            },
            Some(tok) => {
                if !chars_are_ascii(tok) {
                    self.error_message = String::from_str("the engine move could not be decoded");
                    return true;
                }
                match authority::move_from_usi(tok) {
                    None => {
                        self.error_message = String::from_str(
                            "the engine move could not be decoded",
                        );
                        true
                    },
                    Some(m) => {
                        let r = self.try_move(m);
                        proof {
                            assert(apply_move_outcome(old(self).pos, self.pos, m, r));
                        }
                        true
                    },
                }
            },
        }
    }

    /// Starts a new game: the position returns to the standard start,
    /// the projection is rebuilt, the selection and the message are
    /// cleared, and the returned command resets the engine.
    pub fn new_game(&mut self) -> (r: &'static str)
        requires
            old(self).wf(),
        ensures
            final(self).wf(),
            final(self).same_settings(*old(self)),
            r@ == "position startpos"@,
            forall|f: int, r2: int|
                0 <= f < 9 && 0 <= r2 < 9 ==> final(self).board.cell(f, r2)
                    == #[trigger] start_cell(f, r2),
            pos_side(final(self).pos) == Color::Black,
            forall|pc: Piece| #[trigger] pos_hand(final(self).pos, pc) == 0,
            pos_history_len(final(self).pos) == 0,
            pos_ply(final(self).pos) == 1,
            final(self).board.selection == Selection::Idle,
            final(self).board.mask_empty(),
            final(self).error_message@.len() == 0,
            final(self).history_desynced == false,
    {
        self.pos = authority::start_position();
        self.board.update_board(&self.pos);
        self.board.reset_activity();
        self.error_message = String::new();
        self.history_desynced = false;
        proof {
            assert forall|f: int, r2: int| 0 <= f < 9 && 0 <= r2 < 9 implies self.board.cell(f, r2)
                == #[trigger] start_cell(f, r2) by {
                assert(pos_piece_at(self.pos, f, r2) == start_cell(f, r2));
            }
        }
        "position startpos"
    }

    /// Undoes the last move through the authority's reversible history.
    /// With no move to undo this is an explicit no-op with a reported
    /// error: the position and the board stay untouched.  After a
    /// repetition verdict the recorded history no longer matches the
    /// position, so undo is refused until the next reset.  Otherwise one
    /// history record is popped, the projection is rebuilt, the selection
    /// is reset, and the returned command re-synchronizes the engine with
    /// the authority's current position string.
    pub fn undo_move(&mut self) -> (r: Option<String>)
        requires
            old(self).wf(),
        ensures
            final(self).wf(),
            final(self).same_settings(*old(self)),
            final(self).history_desynced == old(self).history_desynced,
            old(self).history_desynced ==> r is None && final(self).pos == old(self).pos && final(self).board == old(self).board && final(self).error_message@
                == "the position cannot be undone after a repetition verdict"@,
            !old(self).history_desynced && pos_history_len(old(self).pos) == 0 ==> r is None
                && final(self).pos == old(self).pos && final(self).board == old(self).board
                && final(self).error_message@ == "no move to undo"@,
            !old(self).history_desynced && pos_history_len(old(self).pos) > 0 ==> r is Some
                && pos_history_len(final(self).pos) == pos_history_len(old(self).pos) - 1
                && pos_last_move(old(self).pos).valid() && move_applied(
                final(self).pos,
                old(self).pos,
                pos_last_move(old(self).pos),
            ) && (match pos_last_move(old(self).pos) {
                Move::Normal { from: _, to, promote: _ } => pos_piece_at(
                    final(self).pos,
                    to.file as int,
                    to.rank as int,
                ) == pos_last_captured(old(self).pos),
                Move::Drop { .. } => true,
            }) && final(self).board.selection == Selection::Idle && final(self).board.mask_empty(),
            (match r {
                Some(cmd) => cmd@ == "position sfen "@ + pos_sfen(final(self).pos) && final(self).error_message@.len() == 0,
                None => true,
            }),
    {
        if self.history_desynced {
            self.error_message = String::from_str(
                "the position cannot be undone after a repetition verdict",
            );
            return None;
        }
        if !authority::has_history(&self.pos) {
            self.error_message = String::from_str("no move to undo");
            return None;
        }
        match authority::unmake_move(&mut self.pos) {
            Ok(_) => {
                self.board.update_board(&self.pos);
                self.board.reset_activity();
                self.error_message = String::new();
                let sfen = authority::to_sfen(&self.pos);
                let mut cmd = String::from_str("position sfen ");
                cmd.append(sfen.as_str());
                Some(cmd)
            },
            Err(_e) => {
                proof {
                    assert(false);
                }
                None
            },
        }
    }

    /// Tests whether a token is the literal keyword `moves`, which in a
    /// position string introduces the trailing move list.
    fn token_is_moves(t: &str) -> (r: bool)
        ensures
            r == (t@ == "moves"@),
    {
        proof {
            reveal_strlit("moves");
        }
        let n = t.unicode_len();
        if n != 5 {
            return false;
        }
        let pat = "moves";
        let mut i: usize = 0;
        while i < 5
            invariant
                i <= 5,
                n == t@.len(),
                n == 5,
                pat@ == "moves"@,
                pat@.len() == 5,
                forall|j: int| 0 <= j < i ==> t@[j] == pat@[j],
            decreases 5 - i,
        {
            if t.get_char(i) != pat.get_char(i) {
                return false;
            }
            i = i + 1;
        }
        proof {
            assert(t@ =~= "moves"@);
        }
        true
    }

    /// Loads a position from its textual encoding, for preset positions.
    /// The position is rebuilt from scratch, so any recorded history is
    /// discarded.  A string that could misdrive the authority's reader —
    /// exotic whitespace or an overlong hand count — is refused locally,
    /// before the authority sees it.  A plain string (no trailing move
    /// list) is handed to the authority whole.  A string with a fifth
    /// token is split: the authority reads the four base fields, the rest
    /// is ignored unless it is a move list introduced by the keyword
    /// `moves` — as the authority's own reader has it — and the session
    /// itself replays the listed moves through the same
    /// guarded path as interactive moves — an undecodable token refuses
    /// the string, a rejected or inadmissible move ends the replay
    /// silently as the authority's own reader does, a repetition verdict
    /// marks the history desynced, and a string over a megabyte is
    /// refused outright.  The selection is reset and the projection
    /// rebuilt whether or not the string is accepted.
    pub fn load_sfen(&mut self, s: &str) -> (r: bool)
        requires
            old(self).wf(),
        ensures
            final(self).wf(),
            final(self).same_settings(*old(self)),
            final(self).board.selection == Selection::Idle,
            final(self).board.mask_empty(),
            r ==> final(self).error_message@.len() == 0,
            !r ==> final(self).error_message@ == "the position string was refused"@,
            nth_token_of(s@, 4) is None ==> r == (sfen_input_bounded(s@) && sfen_accepted(s@)),
            nth_token_of(s@, 4) is None && r ==> forall|f: int, r2: int|
                0 <= f < 9 && 0 <= r2 < 9 ==> final(self).board.cell(f, r2) == #[trigger] sfen_cell(
                    s@,
                    f,
                    r2,
                ),
            nth_token_of(s@, 4) is None && r ==> pos_side(final(self).pos) == sfen_side(s@),
            nth_token_of(s@, 4) is None && r ==> forall|pc: Piece| #[trigger] pos_hand(
                final(self).pos,
                pc,
            ) == sfen_hand(s@, pc),
            nth_token_of(s@, 4) is None && r ==> pos_history_len(final(self).pos) == 0 && final(self).history_desynced == false,
    {
        let hand_bounded = match third_token(s) {
            Some(t) => has_no_triple_digit(t),
            None => true,
        };
        if !(spaces_are_ascii_check(s) && hand_bounded) {
            self.board.reset_activity();
            self.error_message = String::from_str("the position string was refused");
            return false;
        }
        let replay = match nth_token(s, 4) {
            Some(t4) => Some(Self::token_is_moves(t4)),
            None => None,
        };
        if replay.is_none() {
            self.pos = authority::new_position();
            let res = authority::set_sfen(&mut self.pos, s);
            self.board.update_board(&self.pos);
            self.board.reset_activity();
            self.history_desynced = false;
            return match res {
                Ok(_) => {
                    self.error_message = String::new();
                    proof {
                        assert forall|f: int, r2: int|
                            0 <= f < 9 && 0 <= r2 < 9 implies self.board.cell(f, r2)
                            == #[trigger] sfen_cell(s@, f, r2) by {
                            assert(pos_piece_at(self.pos, f, r2) == sfen_cell(s@, f, r2));
                        }
                    }
                    true
                },
                Err(_e) => {
                    self.error_message = String::from_str("the position string was refused");
                    false
                },
            };
        }
        // a move list of absurd length is refused outright
        let n = s.unicode_len();
        if n > 1000000 {
            self.board.reset_activity();
            self.error_message = String::from_str("the position string was refused");
            return false;
        }
        // rebuild the four base fields and re-check them with the same
        // verified tests the authority's requires ask for
        let base = match (nth_token(s, 0), nth_token(s, 1), nth_token(s, 2), nth_token(s, 3)) {
            (Some(b0), Some(b1), Some(b2), Some(b3)) => {
                let mut joined = String::from_str(b0);
                joined.append(" ");
                joined.append(b1);
                joined.append(" ");
                joined.append(b2);
                joined.append(" ");
                joined.append(b3);
                joined
            },
            _ => {
                self.board.reset_activity();
                self.error_message = String::from_str("the position string was refused");
                return false;
            },
        };
        let base_hand_bounded = match third_token(base.as_str()) {
            Some(t) => has_no_triple_digit(t),
            None => true,
        };
        let base_plain = match nth_token(base.as_str(), 4) {
            Some(_) => false,
            None => true,
        };
        if !(spaces_are_ascii_check(base.as_str()) && base_hand_bounded && base_plain) {
            self.board.reset_activity();
            self.error_message = String::from_str("the position string was refused");
            return false;
        }
        self.pos = authority::new_position();
        let res = authority::set_sfen(&mut self.pos, base.as_str());
        self.history_desynced = false;
        match res {
            Err(_e) => {
                self.board.update_board(&self.pos);
                self.board.reset_activity();
                self.error_message = String::from_str("the position string was refused");
                return false;
            },
            Ok(_) => {},
        }
        let mut k: usize = 5;
        let mut ok = true;
        let mut more = match replay {
            Some(true) => true,
            _ => false,
        };
        while more && k - 5 < n
            invariant
                5 <= k <= n + 5,
                n == s@.len(),
                n <= 1000000,
                self.history_desynced || pos_undo_safe(self.pos),
                self.board == old(self).board,
                old(self).board.wf(),
                self.promotion_flag == old(self).promotion_flag,
                self.engine_ms == old(self).engine_ms,
                self.joystick_state == old(self).joystick_state,
            decreases n + 5 - k,
        {
            match nth_token(s, k) {
                None => {
                    more = false;
                },
                Some(tok) => {
                    if !chars_are_ascii(tok) {
                        ok = false;
                        more = false;
                    } else {
                        match authority::move_from_usi(tok) {
                            None => {
                                ok = false;
                                more = false;
                            },
                            Some(m) => {
                                if !self.move_admissible(m) {
                                    more = false;
                                } else {
                                    match authority::apply_move(&mut self.pos, m) {
                                        Ok(_) => {},
                                        Err(e) => {
                                            if e.after_apply() {
                                                self.history_desynced = true;
                                            }
                                            more = false;
                                        },
                                    }
                                }
                            },
                        }
                    }
                },
            }
            k = k + 1;
        }
        self.board.update_board(&self.pos);
        self.board.reset_activity();
        if ok {
            self.error_message = String::new();
            true
        } else {
            self.error_message = String::from_str("the position string was refused");
            false
        }
    }

    /// The authority's compact textual encoding of the current position.
    pub fn position_string(&self) -> (r: String)
        ensures
            r@ == pos_sfen(self.pos),
    {
        authority::to_sfen(&self.pos)
    }

    /// Folds one decoded device reading into the session and reports the
    /// synthetic click it causes, if any: a click fires exactly when the
    /// switch falls from 1 to 0, at the reading's square with the file
    /// axis reversed for display — holding the switch never repeats.
    pub fn poll_joystick(&mut self, reading: (i32, i32, i32)) -> (r: Option<(i32, i32)>)
        requires
            old(self).wf(),
        ensures
            final(self).wf(),
            final(self).pos == old(self).pos,
            final(self).board == old(self).board,
            final(self).error_message == old(self).error_message,
            final(self).promotion_flag == old(self).promotion_flag,
            final(self).engine_ms == old(self).engine_ms,
            final(self).history_desynced == old(self).history_desynced,
            final(self).joystick_state == reading,
            r == (if old(self).joystick_state.0 == 1 && reading.0 == 0 && 0 <= reading.1 <= 8 && 0
                <= reading.2 <= 8 {
                Some((reading.1, (8 - reading.2) as i32))
            } else {
                None::<(i32, i32)>
            }),
    {
        let fell = self.joystick_state.0 == 1 && reading.0 == 0;
        self.joystick_state = reading;
        if fell && reading.1 >= 0 && reading.1 <= 8 && reading.2 >= 0 && reading.2 <= 8 {
            Some((reading.1, 8 - reading.2))
        } else {
            None
        }
    }

    /// Flips the manual promotion rule.
    pub fn toggle_promotion(&mut self)
        requires
            old(self).wf(),
        ensures
            final(self).wf(),
            final(self).promotion_flag == !old(self).promotion_flag,
            final(self).pos == old(self).pos,
            final(self).board == old(self).board,
            final(self).error_message == old(self).error_message,
            final(self).engine_ms == old(self).engine_ms,
            final(self).joystick_state == old(self).joystick_state,
            final(self).history_desynced == old(self).history_desynced,
    {
        self.promotion_flag = !self.promotion_flag;
    }
}

/// Idempotent toggle law for squares: clicking a square held by the side
/// to move selects it, whatever was selected before, and clicking the
/// same square again returns the selection to idle (and, through the
/// session invariant, empties the highlight mask).
pub proof fn lemma_square_toggle(p: shogi::Position, sel: Selection, t: Square)
    requires
        square_occupied_by_mover(p, t),
        sel != Selection::PieceSelected(t),
    ensures
        square_click_selection(p, sel, t) == Selection::PieceSelected(t),
        square_click_selection(p, square_click_selection(p, sel, t), t) == Selection::Idle,
{
}

/// Idempotent toggle law for hand slots: clicking a slot that holds a
/// piece of the side to move selects it, whatever was selected before,
/// and clicking the same slot again returns the selection to idle (and,
/// through the session invariant, empties the highlight mask).
pub proof fn lemma_hand_toggle(p: shogi::Position, sel: Selection, i: usize)
    requires
        i < 14,
        spec_hand_slot(i as int).color == pos_side(p),
        pos_hand(p, spec_hand_slot(i as int)) > 0,
        sel != Selection::HandSelected(i),
    ensures
        hand_click_selection(p, sel, i) == Selection::HandSelected(i),
        hand_click_selection(p, hand_click_selection(p, sel, i), i) == Selection::Idle,
{
}

} // verus!
