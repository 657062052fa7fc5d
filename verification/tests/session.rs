use shogi_session::board::hand_slot;
use shogi_session::{Color, Move, MoveRejection, Piece, PieceType, Selection, ShogiGame, Square};

fn sq(file: u8, rank: u8) -> Square {
    Square::new(file, rank).unwrap()
}

fn mask_count(g: &ShogiGame) -> usize {
    let mut n: usize = 0;
    for i in 0..81 {
        if g.board.active_moves[i] {
            n += 1;
        }
    }
    n
}

#[test]
fn start_position_projection() {
    let g = ShogiGame::new();
    // White's home rank: lance, knight, silver, gold, king in the middle
    assert_eq!(
        g.board.cells[0 * 9 + 4],
        Some(Piece { piece_type: PieceType::King, color: Color::White })
    );
    assert_eq!(
        g.board.cells[0 * 9 + 0],
        Some(Piece { piece_type: PieceType::Lance, color: Color::White })
    );
    // pawns on ranks 2 and 6
    for file in 0..9 {
        assert_eq!(
            g.board.cells[2 * 9 + file],
            Some(Piece { piece_type: PieceType::Pawn, color: Color::White })
        );
        assert_eq!(
            g.board.cells[6 * 9 + file],
            Some(Piece { piece_type: PieceType::Pawn, color: Color::Black })
        );
    }
    // the middle is empty, nothing is selected or highlighted
    for file in 0..9 {
        for rank in 3..6 {
            assert_eq!(g.board.cells[rank * 9 + file], None);
        }
    }
    assert_eq!(g.board.selection, Selection::Idle);
    assert_eq!(mask_count(&g), 0);
    // both hands are empty
    for i in 0..14 {
        assert_eq!(g.board.hand[i], 0);
    }
    assert!(g.error_message.is_empty());
    assert_eq!(g.engine_ms, "3000");
}

#[test]
fn select_pawn_highlights_single_advance() {
    // starting position, Black pawns on rank 6; selecting the pawn at
    // file 4, rank 6 highlights exactly (rank 5, file 4)
    let mut g = ShogiGame::new();
    g.handle_piece_move(6, 4);
    assert_eq!(g.board.selection, Selection::PieceSelected(sq(4, 6)));
    for i in 0..81 {
        let expected = i == 5 * 9 + 4;
        assert_eq!(g.board.active_moves[i], expected, "mask bit {} is wrong", i);
    }
}

#[test]
fn select_same_square_twice_toggles_off() {
    let mut g = ShogiGame::new();
    g.handle_piece_move(6, 4);
    assert_eq!(g.board.selection, Selection::PieceSelected(sq(4, 6)));
    g.handle_piece_move(6, 4);
    assert_eq!(g.board.selection, Selection::Idle);
    assert_eq!(mask_count(&g), 0);
}

#[test]
fn select_same_hand_slot_twice_toggles_off() {
    let mut g = ShogiGame::new();
    assert!(g.load_sfen("lnsgkgsnl/1r5b1/ppppppppp/9/9/9/PPPPPPPPP/1B5R1/LNSGKGSNL b S 1"));
    // slot 10 is Black's silver
    assert_eq!(hand_slot(10), Piece { piece_type: PieceType::Silver, color: Color::Black });
    assert_eq!(g.board.hand[10], 1);
    g.handle_hand_click(10);
    assert_eq!(g.board.selection, Selection::HandSelected(10));
    g.handle_hand_click(10);
    assert_eq!(g.board.selection, Selection::Idle);
    assert_eq!(mask_count(&g), 0);
}

#[test]
fn reselect_own_piece_changes_selection() {
    let mut g = ShogiGame::new();
    g.handle_piece_move(6, 4);
    assert_eq!(g.board.selection, Selection::PieceSelected(sq(4, 6)));
    // clicking another own pawn reselects instead of moving
    g.handle_piece_move(6, 2);
    assert_eq!(g.board.selection, Selection::PieceSelected(sq(2, 6)));
    for i in 0..81 {
        let expected = i == 5 * 9 + 2;
        assert_eq!(g.board.active_moves[i], expected);
    }
}

#[test]
fn click_outside_mask_cancels() {
    let mut g = ShogiGame::new();
    g.handle_piece_move(6, 4);
    // (rank 4, file 0) is neither highlighted nor an own piece
    g.handle_piece_move(4, 0);
    assert_eq!(g.board.selection, Selection::Idle);
    assert_eq!(mask_count(&g), 0);
    // the position is unchanged: the pawn still stands on (rank 6, file 4)
    assert_eq!(
        g.board.cells[6 * 9 + 4],
        Some(Piece { piece_type: PieceType::Pawn, color: Color::Black })
    );
}

#[test]
fn highlighted_click_commits_move() {
    let mut g = ShogiGame::new();
    g.handle_piece_move(6, 4);
    g.handle_piece_move(5, 4);
    assert_eq!(g.board.selection, Selection::Idle);
    assert_eq!(g.board.cells[6 * 9 + 4], None);
    assert_eq!(
        g.board.cells[5 * 9 + 4],
        Some(Piece { piece_type: PieceType::Pawn, color: Color::Black })
    );
    // on success the message records the move in its own notation
    assert_eq!(g.error_message, "5g5f");
}

#[test]
fn pawn_drop_candidates_respect_double_pawn_rule() {
    let mut g = ShogiGame::new();
    // Black holds a pawn, and every file already has a Black pawn:
    // no drop square may be offered at all
    assert!(g.load_sfen("lnsgkgsnl/1r5b1/ppppppppp/9/9/9/PPPPPPPPP/1B5R1/LNSGKGSNL b P 1"));
    g.handle_hand_click(7);
    assert_eq!(g.board.selection, Selection::HandSelected(7));
    assert_eq!(mask_count(&g), 0);
}

#[test]
fn pawn_drop_candidates_offer_only_open_file() {
    let mut g = ShogiGame::new();
    // the Black pawn of file 4 is missing, so exactly the empty squares
    // of file 4 are offered
    assert!(g.load_sfen("lnsgkgsnl/1r5b1/ppppppppp/9/9/9/PPPP1PPPP/1B5R1/LNSGKGSNL b P 1"));
    g.handle_hand_click(7);
    assert_eq!(g.board.selection, Selection::HandSelected(7));
    assert_eq!(mask_count(&g), 6);
    for rank in [1usize, 3, 4, 5, 6, 7] {
        assert!(g.board.active_moves[rank * 9 + 4], "rank {} of file 4 missing", rank);
    }
}

#[test]
fn other_piece_drop_candidates_offer_every_empty_square() {
    let mut g = ShogiGame::new();
    assert!(g.load_sfen("lnsgkgsnl/1r5b1/ppppppppp/9/9/9/PPPPPPPPP/1B5R1/LNSGKGSNL b S 1"));
    g.handle_hand_click(10);
    assert_eq!(g.board.selection, Selection::HandSelected(10));
    // 40 pieces stand on the board, so 41 squares are empty
    assert_eq!(mask_count(&g), 41);
}

#[test]
fn pawn_drop_into_pawn_file_is_rejected() {
    let mut g = ShogiGame::new();
    assert!(g.load_sfen("lnsgkgsnl/1r5b1/ppppppppp/9/9/9/PPPPPPPPP/1B5R1/LNSGKGSNL b P 1"));
    let r = g.try_move(Move::Drop { to: sq(0, 4), piece_type: PieceType::Pawn });
    assert_eq!(r, Err(MoveRejection::Nifu));
    assert_eq!(g.error_message, "Error in make_move: nifu detected");
    // all-or-nothing: the square stays empty and the pawn stays in hand
    assert_eq!(g.board.cells[4 * 9 + 0], None);
    assert_eq!(g.board.hand[7], 1);
}

#[test]
fn silver_drop_on_empty_square_is_accepted() {
    let mut g = ShogiGame::new();
    assert!(g.load_sfen("lnsgkgsnl/1r5b1/ppppppppp/9/9/9/PPPPPPPPP/1B5R1/LNSGKGSNL b S 1"));
    let r = g.try_move(Move::Drop { to: sq(4, 4), piece_type: PieceType::Silver });
    assert_eq!(r, Ok(()));
    assert_eq!(
        g.board.cells[4 * 9 + 4],
        Some(Piece { piece_type: PieceType::Silver, color: Color::Black })
    );
    assert_eq!(g.board.hand[10], 0);
}

#[test]
fn unplaceable_drop_is_rejected() {
    let mut g = ShogiGame::new();
    assert!(g.load_sfen("k8/9/9/9/9/9/9/9/8K b P 1"));
    // a pawn on the last rank could never move again
    let r = g.try_move(Move::Drop { to: sq(0, 0), piece_type: PieceType::Pawn });
    assert_eq!(r, Err(MoveRejection::NonMovablePiece));
    assert_eq!(g.board.cells[0 * 9 + 0], None);
}

#[test]
fn move_leaving_king_in_check_is_rejected() {
    let mut g = ShogiGame::new();
    // White's rook pins Black's king to file 0
    assert!(g.load_sfen("k8/8r/9/9/9/9/9/9/8K b - 1"));
    let r = g.try_move(Move::Normal { from: sq(0, 8), to: sq(0, 7), promote: false });
    assert_eq!(r, Err(MoveRejection::InCheck));
    // all-or-nothing: the king has not moved
    assert_eq!(
        g.board.cells[8 * 9 + 0],
        Some(Piece { piece_type: PieceType::King, color: Color::Black })
    );
}

#[test]
fn duration_validation_table() {
    let cases = [
        ("0", false, "Engine calculation time must be positive."),
        ("-5", false, "Engine calculation time must be positive."),
        ("20000", false, "Engine calculation time must be less than 10000 ms."),
        ("abc", false, "Engine calculation time must be an integer."),
        ("3000", true, ""),
    ];
    for (input, accepted, message) in cases.iter() {
        let mut g = ShogiGame::new();
        g.engine_ms = input.to_string();
        let r = g.make_engine_request();
        assert_eq!(r.is_some(), *accepted, "for input {}", input);
        if let Some(req) = r {
            // the accepted duration is forwarded verbatim
            assert_eq!(req.go_command, format!("go byoyomi {}", input));
            assert_eq!(
                req.position_command,
                "position sfen lnsgkgsnl/1r5b1/ppppppppp/9/9/9/PPPPPPPPP/1B5R1/LNSGKGSNL b - 1"
            );
        } else {
            assert_eq!(g.error_message, *message);
        }
    }
}

#[test]
fn normal_move_from_empty_square_is_rejected() {
    let mut g = ShogiGame::new();
    let before = g.board.cells.clone();
    let r = g.try_move(Move::Normal { from: sq(4, 4), to: sq(4, 3), promote: false });
    assert_eq!(r, Err(MoveRejection::Inconsistent));
    assert!(!g.error_message.is_empty());
    assert_eq!(g.board.selection, Selection::Idle);
    assert_eq!(mask_count(&g), 0);
    assert_eq!(g.board.cells, before);
}

#[test]
fn switch_release_fires_exactly_one_click() {
    let mut g = ShogiGame::new();
    // switch sequence 1, 1, 0 with a stable square must click once
    assert_eq!(g.poll_joystick((1, 4, 4)), None);
    assert_eq!(g.poll_joystick((1, 4, 4)), None);
    assert_eq!(g.poll_joystick((0, 4, 4)), Some((4, 4)));
    // holding at 0 does not repeat-fire
    assert_eq!(g.poll_joystick((0, 4, 4)), None);
}

#[test]
fn joystick_file_axis_is_reversed() {
    let mut g = ShogiGame::new();
    assert_eq!(g.poll_joystick((1, 2, 3)), None);
    assert_eq!(g.poll_joystick((0, 2, 3)), Some((2, 5)));
}

#[test]
fn undo_without_history_reports_error() {
    let mut g = ShogiGame::new();
    g.new_game();
    let before = g.board.cells.clone();
    let r = g.undo_move();
    assert!(r.is_none());
    assert_eq!(g.error_message, "no move to undo");
    assert_eq!(g.board.cells, before);
    assert_eq!(g.board.selection, Selection::Idle);
}

#[test]
fn undo_restores_previous_position() {
    let mut g = ShogiGame::new();
    let r = g.try_move(Move::Normal { from: sq(6, 6), to: sq(6, 5), promote: false });
    assert_eq!(r, Ok(()));
    assert_eq!(g.board.cells[6 * 9 + 6], None);
    let cmd = g.undo_move().unwrap();
    assert_eq!(
        cmd,
        "position sfen lnsgkgsnl/1r5b1/ppppppppp/9/9/9/PPPPPPPPP/1B5R1/LNSGKGSNL b - 1"
    );
    assert_eq!(
        g.board.cells[6 * 9 + 6],
        Some(Piece { piece_type: PieceType::Pawn, color: Color::Black })
    );
    assert_eq!(g.board.cells[5 * 9 + 6], None);
    assert!(g.error_message.is_empty());
}

#[test]
fn new_game_resets_everything() {
    let mut g = ShogiGame::new();
    g.handle_piece_move(6, 4);
    g.handle_piece_move(5, 4);
    let cmd = g.new_game();
    assert_eq!(cmd, "position startpos");
    assert_eq!(g.board.selection, Selection::Idle);
    assert_eq!(mask_count(&g), 0);
    assert!(g.error_message.is_empty());
    assert_eq!(
        g.board.cells[6 * 9 + 4],
        Some(Piece { piece_type: PieceType::Pawn, color: Color::Black })
    );
}

#[test]
fn captured_king_enters_no_hand() {
    let mut g = ShogiGame::new();
    // Black's rook stands beside White's bare king and takes it
    assert!(g.load_sfen("kR7/9/9/9/9/9/9/9/8K b - 1"));
    let r = g.try_move(Move::Normal { from: sq(7, 0), to: sq(8, 0), promote: false });
    assert_eq!(r, Ok(()));
    assert_eq!(
        g.board.cells[0 * 9 + 8],
        Some(Piece { piece_type: PieceType::Rook, color: Color::Black })
    );
    // kings cannot be held in hand: every count stays zero
    for i in 0..14 {
        assert_eq!(g.board.hand[i], 0);
    }
}

#[test]
fn non_ascii_bestmove_token_is_an_error() {
    let mut g = ShogiGame::new();
    let before = g.board.cells.clone();
    assert!(g.apply_engine_line("bestmove 7g7\u{00a2}"));
    assert_eq!(g.error_message, "the engine move could not be decoded");
    assert_eq!(g.board.cells, before);
}

#[test]
fn position_string_reflects_the_position() {
    let mut g = ShogiGame::new();
    assert_eq!(
        g.position_string(),
        "lnsgkgsnl/1r5b1/ppppppppp/9/9/9/PPPPPPPPP/1B5R1/LNSGKGSNL b - 1"
    );
    assert_eq!(g.try_move(Move::Normal { from: sq(6, 6), to: sq(6, 5), promote: false }), Ok(()));
    assert_eq!(
        g.position_string(),
        "lnsgkgsnl/1r5b1/ppppppppp/9/9/9/PPPPPPPPP/1B5R1/LNSGKGSNL b - 1 moves 7g7f"
    );
}

#[test]
fn capture_fills_the_hand() {
    let mut g = ShogiGame::new();
    assert_eq!(g.try_move(Move::Normal { from: sq(6, 6), to: sq(6, 5), promote: false }), Ok(()));
    assert_eq!(g.try_move(Move::Normal { from: sq(2, 2), to: sq(2, 3), promote: false }), Ok(()));
    // Black's bishop runs the opened diagonal and captures White's bishop
    assert_eq!(g.try_move(Move::Normal { from: sq(7, 7), to: sq(1, 1), promote: true }), Ok(()));
    assert_eq!(
        g.board.cells[1 * 9 + 1],
        Some(Piece { piece_type: PieceType::ProBishop, color: Color::Black })
    );
    // slot 12 is Black's bishop in hand
    assert_eq!(hand_slot(12), Piece { piece_type: PieceType::Bishop, color: Color::Black });
    assert_eq!(g.board.hand[12], 1);
}

#[test]
fn repetition_verdict_blocks_undo_until_reset() {
    let mut g = ShogiGame::new();
    // both rooks shuttle back and forth; the fourth occurrence of the
    // starting position is refused as a repetition, and the authority
    // applies that last move without recording it
    let cycle = [
        ((1u8, 7u8), (2u8, 7u8)),
        ((7u8, 1u8), (6u8, 1u8)),
        ((2u8, 7u8), (1u8, 7u8)),
        ((6u8, 1u8), (7u8, 1u8)),
    ];
    let mut last = Ok(());
    for _ in 0..3 {
        for ((ff, fr), (tf, tr)) in cycle.iter() {
            last = g.try_move(Move::Normal {
                from: sq(*ff, *fr),
                to: sq(*tf, *tr),
                promote: false,
            });
        }
    }
    assert_eq!(last, Err(MoveRejection::Repetition));
    assert_eq!(g.error_message, "Error in make_move: repetition detected");
    // the history is out of step with the position now: undo is refused
    let r = g.undo_move();
    assert!(r.is_none());
    assert_eq!(g.error_message, "the position cannot be undone after a repetition verdict");
    // a new game recovers the session
    g.new_game();
    assert!(g.undo_move().is_none());
    assert_eq!(g.error_message, "no move to undo");
}

#[test]
fn engine_log_lines_are_ignored() {
    let mut g = ShogiGame::new();
    let before = g.board.cells.clone();
    assert!(!g.apply_engine_line("info depth 12 score cp 40"));
    assert!(!g.apply_engine_line(""));
    assert_eq!(g.board.cells, before);
    assert!(g.error_message.is_empty());
}

#[test]
fn bestmove_reply_is_decoded_and_applied() {
    let mut g = ShogiGame::new();
    assert!(g.apply_engine_line("bestmove 7g7f ponder 3c3d"));
    // 7g is (file 6, rank 6), 7f is (file 6, rank 5)
    assert_eq!(g.board.cells[6 * 9 + 6], None);
    assert_eq!(
        g.board.cells[5 * 9 + 6],
        Some(Piece { piece_type: PieceType::Pawn, color: Color::Black })
    );
    assert_eq!(g.error_message, "7g7f");
    assert_eq!(g.board.selection, Selection::Idle);
}

#[test]
fn bestmove_reply_without_token_is_an_error() {
    let mut g = ShogiGame::new();
    let before = g.board.cells.clone();
    assert!(g.apply_engine_line("bestmove"));
    assert_eq!(g.error_message, "the engine reply holds no move token");
    assert_eq!(g.board.cells, before);
}

#[test]
fn undecodable_bestmove_token_is_an_error() {
    let mut g = ShogiGame::new();
    let before = g.board.cells.clone();
    assert!(g.apply_engine_line("bestmove resign"));
    assert_eq!(g.error_message, "the engine move could not be decoded");
    assert_eq!(g.board.cells, before);
}

#[test]
fn refused_position_string_is_reported() {
    let mut g = ShogiGame::new();
    assert!(!g.load_sfen("not a position"));
    assert_eq!(g.error_message, "the position string was refused");
}

#[test]
fn overlong_hand_count_is_refused_locally() {
    let mut g = ShogiGame::new();
    // a three-digit hand count would overflow the authority's counter
    assert!(!g.load_sfen("lnsgkgsnl/1r5b1/ppppppppp/9/9/9/PPPPPPPPP/1B5R1/LNSGKGSNL b 260P 1"));
    assert_eq!(g.error_message, "the position string was refused");
    // a two-digit count is fine
    assert!(g.load_sfen("lnsgkgsnl/1r5b1/ppppppppp/9/9/9/PPPPPPPPP/1B5R1/LNSGKGSNL b 18P 1"));
    assert_eq!(g.board.hand[7], 18);
}

#[test]
fn ply_ceiling_halts_the_replay() {
    let mut g = ShogiGame::new();
    // the base fields load, but the first listed move would push the
    // authority's 16-bit ply counter past its ceiling: the replay stops
    // before it and the move is not applied
    assert!(g.load_sfen(
        "lnsgkgsnl/1r5b1/ppppppppp/9/9/9/PPPPPPPPP/1B5R1/LNSGKGSNL b - 65535 moves 7g7f"
    ));
    assert_eq!(
        g.board.cells[6 * 9 + 6],
        Some(Piece { piece_type: PieceType::Pawn, color: Color::Black })
    );
    assert_eq!(g.board.cells[5 * 9 + 6], None);
}

#[test]
fn replayed_repetition_marks_history_desynced() {
    let mut g = ShogiGame::new();
    // the listed moves shuttle both rooks until the starting position
    // recurs a fourth time: the authority applies that last move but
    // refuses it as a repetition, so the loaded history is out of step
    // and undo is refused
    let line = "lnsgkgsnl/1r5b1/ppppppppp/9/9/9/PPPPPPPPP/1B5R1/LNSGKGSNL b - 1 \
                moves 2h3h 8b7b 3h2h 7b8b 2h3h 8b7b 3h2h 7b8b 2h3h 8b7b 3h2h 7b8b";
    assert!(g.load_sfen(line));
    let r = g.undo_move();
    assert!(r.is_none());
    assert_eq!(g.error_message, "the position cannot be undone after a repetition verdict");
}

#[test]
fn undecodable_replay_token_refuses_the_string() {
    let mut g = ShogiGame::new();
    assert!(!g.load_sfen(
        "lnsgkgsnl/1r5b1/ppppppppp/9/9/9/PPPPPPPPP/1B5R1/LNSGKGSNL b - 1 moves 7g7f xx"
    ));
    assert_eq!(g.error_message, "the position string was refused");
}

#[test]
fn loading_a_position_discards_old_history() {
    let mut g = ShogiGame::new();
    assert_eq!(g.try_move(Move::Normal { from: sq(6, 6), to: sq(6, 5), promote: false }), Ok(()));
    assert!(g.load_sfen("lnsgkgsnl/1r5b1/ppppppppp/9/9/9/PPPPPPPPP/1B5R1/LNSGKGSNL b - 1"));
    // the earlier move does not belong to the loaded position
    let r = g.undo_move();
    assert!(r.is_none());
    assert_eq!(g.error_message, "no move to undo");
}

#[test]
fn castle_preset_loads() {
    let mut g = ShogiGame::new();
    let castle = "lnsgkgsnl/1r5b1/ppppppppp/9/9/9/PPPPPPPPP/1B5R1/LNSGKGSNL b - 1 \
                  moves 2h7h 8b3b 5i4h 5a6b 4h3h 6b7b 3h2h 7b8b 3i3h 7a7b 6i5h 4a5b 1g1f";
    assert!(g.load_sfen(castle));
    // 7h is (file 6, rank 7): Black's rook has castled there
    assert_eq!(
        g.board.cells[7 * 9 + 6],
        Some(Piece { piece_type: PieceType::Rook, color: Color::Black })
    );
}

#[test]
fn board_predicates_follow_the_cells() {
    let g = ShogiGame::new();
    assert!(g.board.is_empty(sq(4, 4)));
    assert!(!g.board.is_empty(sq(4, 6)));
    assert!(g.board.is_friendly(sq(4, 6), Color::Black));
    assert!(!g.board.is_friendly(sq(4, 6), Color::White));
    assert!(g.board.is_highlighted(sq(4, 5)) == false);
    assert_eq!(g.board.piece_on(sq(4, 0)), Some(Piece { piece_type: PieceType::King, color: Color::White }));
    assert_eq!(g.board.hand_count(0), 0);
}

#[test]
fn promotion_flag_forces_promotion_in_zone() {
    let mut g = ShogiGame::new();
    // Black pawn one step from the promotion zone, promotion flag on
    assert!(g.load_sfen("lnsgkgsnl/1r5b1/ppppppppp/4P4/9/9/PPPP1PPPP/1B5R1/LNSGKGSNL b - 1"));
    g.toggle_promotion();
    assert!(g.promotion_flag);
    // the pawn at (rank 3, file 4) captures on (rank 2, file 4), entering
    // the zone: the built move carries promote and yields a promoted pawn
    g.handle_piece_move(3, 4);
    assert_eq!(g.board.selection, Selection::PieceSelected(sq(4, 3)));
    g.handle_piece_move(2, 4);
    assert_eq!(
        g.board.cells[2 * 9 + 4],
        Some(Piece { piece_type: PieceType::ProPawn, color: Color::Black })
    );
    assert_eq!(g.error_message, "5d5c+");
}

#[test]
fn startup_command_is_isready() {
    assert_eq!(ShogiGame::startup_command(), "isready");
}

#[test]
fn move_notation_round_trip() {
    assert_eq!(Move::Normal { from: sq(6, 6), to: sq(6, 5), promote: false }.to_usi(), "7g7f");
    assert_eq!(Move::Normal { from: sq(7, 7), to: sq(1, 1), promote: true }.to_usi(), "8h2b+");
    assert_eq!(Move::Drop { to: sq(4, 4), piece_type: PieceType::Pawn }.to_usi(), "P*5e");
}

#[test]
fn rejection_messages_are_descriptive() {
    assert_eq!(MoveRejection::Nifu.message(), "nifu detected");
    assert_eq!(MoveRejection::InCheck.message(), "the king is in check");
    assert_eq!(
        MoveRejection::Inconsistent.message(),
        "the move is inconsistent with the current position"
    );
}
