//! The board projection: 81 cells, the 14 hand counts, the current
//! selection and the mask of highlighted destination squares.
//!
//! The board is a read-only projection of the rules authority's position,
//! rebuilt wholly by [`Board::update_board`]; it is never the source of
//! truth.  The mask is recomputed wholly on every selection change.

use vstd::prelude::*;
use crate::piece::{Color, Piece, PieceType, Square};
use crate::authority;
use crate::authority::{pos_piece_at, pos_side, pos_hand, pos_candidates, pawn_in_file};

verus! {

/// What is currently selected.  At most one square or one hand slot is
/// active at a time.
#[derive(Clone, Copy, Debug, PartialEq, Eq, Structural)]
pub enum Selection {
    Idle,
    PieceSelected(Square),
    HandSelected(usize),
}

/// Index of a cell in the flat 81-cell storage, rank-major.
pub open spec fn cell_index(file: int, rank: int) -> int {
    rank * 9 + file
}

/// The hand piece shown in a hand slot: slots 0 to 6 hold White's pawn,
/// lance, knight, silver, gold, bishop and rook, slots 7 to 13 Black's in
/// the same order.
pub open spec fn spec_hand_slot(i: int) -> Piece {
    let kind = if i % 7 == 0 { PieceType::Pawn }
    else if i % 7 == 1 { PieceType::Lance }
    else if i % 7 == 2 { PieceType::Knight }
    else if i % 7 == 3 { PieceType::Silver }
    else if i % 7 == 4 { PieceType::Gold }
    else if i % 7 == 5 { PieceType::Bishop }
    else { PieceType::Rook };
    Piece { piece_type: kind, color: if i < 7 { Color::White } else { Color::Black } }
}

/// Returns the hand piece of a hand slot.
pub fn hand_slot(i: usize) -> (r: Piece)
    requires
        i < 14,
    ensures
        r == spec_hand_slot(i as int),
{
    let kind = if i % 7 == 0 { PieceType::Pawn }
    else if i % 7 == 1 { PieceType::Lance }
    else if i % 7 == 2 { PieceType::Knight }
    else if i % 7 == 3 { PieceType::Silver }
    else if i % 7 == 4 { PieceType::Gold }
    else if i % 7 == 5 { PieceType::Bishop }
    else { PieceType::Rook };
    Piece { piece_type: kind, color: if i < 7 { Color::White } else { Color::Black } }
}

/// The squares on which a piece of the given kind may be dropped, by the
/// local policy: any empty square, and for a pawn only in files that hold
/// no unpromoted pawn of the side to move.
pub open spec fn drop_squares(p: shogi::Position, kind: PieceType) -> Set<Square> {
    Set::new(
        |sq: Square|
            sq.valid() && pos_piece_at(p, sq.file as int, sq.rank as int) is None && (kind
                == PieceType::Pawn ==> !pawn_in_file(p, sq.file as int, pos_side(p))),
    )
}

/// The selection after clicking square `sq`, considered on its own: the
/// already selected square toggles off, anything else selects it.
pub open spec fn toggled_selection(sel: Selection, sq: Square) -> Selection {
    if sel == Selection::PieceSelected(sq) {
        Selection::Idle
    } else {
        Selection::PieceSelected(sq)
    }
}

/// Idempotent toggle law at the board level: selecting a square that was
/// not already selected activates it, and selecting it a second time
/// returns the selection to idle.  The session invariant ties the
/// highlight mask to the selection, so an idle selection shows no
/// highlights.
pub proof fn lemma_set_active_toggle(sel: Selection, sq: Square)
    requires
        sel != Selection::PieceSelected(sq),
    ensures
        toggled_selection(sel, sq) == Selection::PieceSelected(sq),
        toggled_selection(toggled_selection(sel, sq), sq) == Selection::Idle,
{
}

/// The board projection and the selection state shown to the renderer.
pub struct Board {
    /// The 81 cells, rank-major: `cells[rank * 9 + file]`.
    pub cells: Vec<Option<Piece>>,
    /// The 14 hand counts, one per hand slot.
    pub hand: Vec<u8>,
    /// The active selection.
    pub selection: Selection,
    /// The mask of highlighted destination squares, rank-major like `cells`.
    pub active_moves: Vec<bool>,
}

impl Board {
    /// The storage has its fixed dimensions and the selection is in range.
    pub open spec fn wf(self) -> bool {
        &&& self.cells@.len() == 81
        &&& self.hand@.len() == 14
        &&& self.active_moves@.len() == 81
        &&& match self.selection {
            Selection::Idle => true,
            Selection::PieceSelected(sq) => sq.valid(),
            Selection::HandSelected(i) => i < 14,
        }
    }

    /// The content of the cell at the given coordinates.
    pub open spec fn cell(self, file: int, rank: int) -> Option<Piece> {
        self.cells@[cell_index(file, rank)]
    }

    /// Whether the cell at the given coordinates is highlighted.
    pub open spec fn mask(self, file: int, rank: int) -> bool {
        self.active_moves@[cell_index(file, rank)]
    }

    /// No square is highlighted.
    pub open spec fn mask_empty(self) -> bool {
        forall|i: int| 0 <= i < 81 ==> !self.active_moves@[i]
    }

    /// The highlighted squares are exactly the given set.
    pub open spec fn mask_is(self, s: Set<Square>) -> bool {
        forall|sq: Square|
            sq.valid() ==> (self.mask(sq.file as int, sq.rank as int) <==> #[trigger] s.contains(
                sq,
            ))
    }

    /// Every cell equals the authority's cell.
    pub open spec fn cells_match(self, p: shogi::Position) -> bool {
        forall|f: int, r: int|
            0 <= f < 9 && 0 <= r < 9 ==> self.cell(f, r) == #[trigger] pos_piece_at(p, f, r)
    }

    /// Every hand count equals the authority's count for that slot.
    pub open spec fn hand_matches(self, p: shogi::Position) -> bool {
        forall|i: int|
            0 <= i < 14 ==> self.hand@[i] as nat == pos_hand(p, #[trigger] spec_hand_slot(i))
    }

    /// Creates an empty board: no pieces, empty hands, nothing selected,
    /// nothing highlighted.
    pub fn new() -> (r: Board)
        ensures
            r.wf(),
            forall|f: int, r2: int| 0 <= f < 9 && 0 <= r2 < 9 ==> #[trigger] r.cell(f, r2) is None,
            forall|i: int| 0 <= i < 14 ==> #[trigger] r.hand@[i] == 0,
            r.selection == Selection::Idle,
            r.mask_empty(),
    {
        let mut cells: Vec<Option<Piece>> = Vec::new();
        let mut active_moves: Vec<bool> = Vec::new();
        let mut i: usize = 0;
        while i < 81
            invariant
                i <= 81,
                cells@.len() == i,
                active_moves@.len() == i,
                forall|j: int| 0 <= j < i ==> (#[trigger] cells@[j]) is None,
                forall|j: int| 0 <= j < i ==> !(#[trigger] active_moves@[j]),
            decreases 81 - i,
        {
            cells.push(None);
            active_moves.push(false);
            i = i + 1;
        }
        let mut hand: Vec<u8> = Vec::new();
        let mut k: usize = 0;
        while k < 14
            invariant
                k <= 14,
                hand@.len() == k,
                forall|j: int| 0 <= j < k ==> #[trigger] hand@[j] == 0,
            decreases 14 - k,
        {
            hand.push(0);
            k = k + 1;
        }
        Board { cells, hand, selection: Selection::Idle, active_moves }
    }

    /// Selects the square, or deselects it where it is already the active
    /// one (toggle-off).  Only the selection changes; callers clear the
    /// highlight mask through [`Board::reset_activity`].
    pub fn set_active(&mut self, rank: u8, file: u8)
        requires
            rank < 9,
            file < 9,
        ensures
            final(self).selection == toggled_selection(
                old(self).selection,
                (Square { file, rank }),
            ),
            final(self).cells == old(self).cells,
            final(self).hand == old(self).hand,
            final(self).active_moves == old(self).active_moves,
    {
        let sq = Square { file, rank };
        if self.selection == Selection::PieceSelected(sq) {
            self.selection = Selection::Idle;
        } else {
            self.selection = Selection::PieceSelected(sq);
        }
    }

    /// Selects the hand slot.  Only the selection changes.
    pub fn set_active_hand(&mut self, i: usize)
        requires
            i < 14,
        ensures
            final(self).selection == Selection::HandSelected(i),
            final(self).cells == old(self).cells,
            final(self).hand == old(self).hand,
            final(self).active_moves == old(self).active_moves,
    {
        self.selection = Selection::HandSelected(i);
    }

    /// Clears the selection and the highlight mask.  Cells and hand
    /// counts are untouched.
    pub fn reset_activity(&mut self)
        requires
            old(self).wf(),
        ensures
            final(self).wf(),
            final(self).selection == Selection::Idle,
            final(self).mask_empty(),
            final(self).cells == old(self).cells,
            final(self).hand == old(self).hand,
    {
        self.selection = Selection::Idle;
        self.clear_mask();
    }

    /// Sets every mask bit to false.
    fn clear_mask(&mut self)
        requires
            old(self).wf(),
        ensures
            final(self).wf(),
            final(self).mask_empty(),
            final(self).cells == old(self).cells,
            final(self).hand == old(self).hand,
            final(self).selection == old(self).selection,
    {
        let mut i: usize = 0;
        while i < 81
            invariant
                i <= 81,
                self.active_moves@.len() == 81,
                self.cells == old(self).cells,
                self.hand == old(self).hand,
                self.selection == old(self).selection,
                forall|j: int| 0 <= j < i ==> !(#[trigger] self.active_moves@[j]),
            decreases 81 - i,
        {
            self.active_moves.set(i, false);
            i = i + 1;
        }
    }

    /// Rebuilds the 81 cells and the 14 hand counts from the authority's
    /// current position: a pure projection, the position is not touched.
    pub fn update_board(&mut self, pos: &shogi::Position)
        requires
            old(self).wf(),
        ensures
            final(self).wf(),
            final(self).cells_match(*pos),
            final(self).hand_matches(*pos),
            final(self).selection == old(self).selection,
            final(self).active_moves == old(self).active_moves,
    {
        let mut i: usize = 0;
        while i < 81
            invariant
                i <= 81,
                self.wf(),
                self.hand == old(self).hand,
                self.selection == old(self).selection,
                self.active_moves == old(self).active_moves,
                forall|f: int, r: int|
                    0 <= f < 9 && 0 <= r < 9 && cell_index(f, r) < i ==> self.cell(f, r)
                        == #[trigger] pos_piece_at(*pos, f, r),
            decreases 81 - i,
        {
            let file: usize = i % 9;
            let rank: usize = i / 9;
            let pc = authority::piece_at(pos, file as u8, rank as u8);
            self.cells.set(i, pc);
            proof {
                assert(cell_index(file as int, rank as int) == i);
                assert forall|f2: int, r2: int|
                    0 <= f2 < 9 && 0 <= r2 < 9 && cell_index(f2, r2) == i as int implies f2
                    == file as int && r2 == rank as int by {}
            }
            i = i + 1;
        }
        let mut k: usize = 0;
        while k < 14
            invariant
                k <= 14,
                self.wf(),
                self.cells_match(*pos),
                self.selection == old(self).selection,
                self.active_moves == old(self).active_moves,
                forall|j: int|
                    0 <= j < k ==> self.hand@[j] as nat == pos_hand(
                        *pos,
                        #[trigger] spec_hand_slot(j),
                    ),
            decreases 14 - k,
        {
            let count = authority::hand_count(pos, hand_slot(k));
            self.hand.set(k, count);
            k = k + 1;
        }
    }

    /// Recomputes the highlight mask wholly: for a selected board piece
    /// the authority's candidate squares, for a hand piece (no square)
    /// the drop-candidate policy.
    pub fn set_active_moves(&mut self, pos: &shogi::Position, sq: Option<Square>, p: Piece)
        requires
            old(self).wf(),
            sq matches Some(s) ==> s.valid(),
        ensures
            final(self).wf(),
            (match sq {
                Some(s) => final(self).mask_is(pos_candidates(*pos, s, p)),
                None => final(self).mask_is(drop_squares(*pos, p.piece_type)),
            }),
            final(self).cells == old(self).cells,
            final(self).hand == old(self).hand,
            final(self).selection == old(self).selection,
    {
        self.clear_mask();
        match sq {
            None => self.drop_candidates(pos, p),
            Some(s) => {
                let v = authority::move_candidates(pos, s, p);
                let ghost cands = pos_candidates(*pos, s, p);
                let mut i: usize = 0;
                while i < 81
                    invariant
                        i <= 81,
                        self.wf(),
                        self.cells == old(self).cells,
                        self.hand == old(self).hand,
                        self.selection == old(self).selection,
                        cands == pos_candidates(*pos, s, p),
                        forall|j: int| 0 <= j < v@.len() ==> (#[trigger] v@[j]).valid(),
                        forall|s2: Square| #[trigger] v@.contains(s2) <==> cands.contains(s2),
                        forall|j: int| i <= j < 81 ==> !(#[trigger] self.active_moves@[j]),
                        forall|sq2: Square|
                            sq2.valid() && cell_index(sq2.file as int, sq2.rank as int) < i ==> (
                            self.mask(sq2.file as int, sq2.rank as int)
                                <==> #[trigger] cands.contains(sq2)),
                    decreases 81 - i,
                {
                    let file: usize = i % 9;
                    let rank: usize = i / 9;
                    let here = Square { file: file as u8, rank: rank as u8 };
                    let hit = contains_square(&v, here);
                    if hit {
                        self.active_moves.set(i, true);
                    }
                    proof {
                        assert(cell_index(file as int, rank as int) == i);
                        assert forall|sq2: Square|
                            sq2.valid() && cell_index(sq2.file as int, sq2.rank as int) < i + 1
                            implies (self.mask(sq2.file as int, sq2.rank as int)
                            <==> #[trigger] cands.contains(sq2)) by {
                            if cell_index(sq2.file as int, sq2.rank as int) == i as int {
                                assert(sq2 == here);
                                assert(hit == v@.contains(sq2));
                            }
                        }
                    }
                    i = i + 1;
                }
                proof {
                    assert forall|sq2: Square| sq2.valid() implies (self.mask(
                        sq2.file as int,
                        sq2.rank as int,
                    ) <==> #[trigger] cands.contains(sq2)) by {
                        assert(0 <= cell_index(sq2.file as int, sq2.rank as int) < 81);
                    }
                }
            },
        }
    }

    /// Marks every square on which the piece may be dropped: any empty
    /// square, except that a pawn may not enter a file that already holds
    /// an unpromoted pawn of the side to move (the double-pawn rule).
    /// Any other droppable piece may go on any empty square.
    pub fn drop_candidates(&mut self, pos: &shogi::Position, p: Piece)
        requires
            old(self).wf(),
            old(self).mask_empty(),
        ensures
            final(self).wf(),
            final(self).mask_is(drop_squares(*pos, p.piece_type)),
            final(self).cells == old(self).cells,
            final(self).hand == old(self).hand,
            final(self).selection == old(self).selection,
    {
        let is_pawn = match p.piece_type {
            PieceType::Pawn => true,
            _ => false,
        };
        let side = authority::side_to_move(pos);
        let mut pawn_files: Vec<bool> = Vec::new();
        let mut f: usize = 0;
        while f < 9
            invariant
                f <= 9,
                side == pos_side(*pos),
                pawn_files@.len() == f,
                forall|f2: int|
                    0 <= f2 < f ==> (#[trigger] pawn_files@[f2] <==> pawn_in_file(
                        *pos,
                        f2,
                        pos_side(*pos),
                    )),
            decreases 9 - f,
        {
            let mut found = false;
            let mut r: usize = 0;
            while r < 9
                invariant
                    r <= 9,
                    f < 9,
                    side == pos_side(*pos),
                    found <==> exists|r2: int|
                        0 <= r2 < r && pos_piece_at(*pos, f as int, r2) == Some(
                            Piece { piece_type: PieceType::Pawn, color: pos_side(*pos) },
                        ),
                decreases 9 - r,
            {
                match authority::piece_at(pos, f as u8, r as u8) {
                    Some(pc) => {
                        if pc.piece_type == PieceType::Pawn && pc.color == side {
                            found = true;
                        }
                    },
                    None => {},
                }
                r = r + 1;
            }
            pawn_files.push(found);
            f = f + 1;
        }
        let ghost policy = drop_squares(*pos, p.piece_type);
        let mut i: usize = 0;
        while i < 81
            invariant
                i <= 81,
                self.wf(),
                self.cells == old(self).cells,
                self.hand == old(self).hand,
                self.selection == old(self).selection,
                is_pawn == (p.piece_type == PieceType::Pawn),
                policy == drop_squares(*pos, p.piece_type),
                pawn_files@.len() == 9,
                forall|f2: int|
                    0 <= f2 < 9 ==> (#[trigger] pawn_files@[f2] <==> pawn_in_file(
                        *pos,
                        f2,
                        pos_side(*pos),
                    )),
                forall|j: int| i <= j < 81 ==> !(#[trigger] self.active_moves@[j]),
                forall|sq2: Square|
                    sq2.valid() && cell_index(sq2.file as int, sq2.rank as int) < i ==> (self.mask(
                        sq2.file as int,
                        sq2.rank as int,
                    ) <==> #[trigger] policy.contains(sq2)),
            decreases 81 - i,
        {
            let file: usize = i % 9;
            let rank: usize = i / 9;
            let here = Square { file: file as u8, rank: rank as u8 };
            let empty = match authority::piece_at(pos, file as u8, rank as u8) {
                Some(_) => false,
                None => true,
            };
            let allowed = empty && (!is_pawn || !pawn_files[file]);
            if allowed {
                self.active_moves.set(i, true);
            }
            proof {
                assert(cell_index(file as int, rank as int) == i);
                assert(allowed == policy.contains(here));
                assert forall|sq2: Square|
                    sq2.valid() && cell_index(sq2.file as int, sq2.rank as int) < i + 1 implies (
                self.mask(sq2.file as int, sq2.rank as int) <==> #[trigger] policy.contains(
                    sq2,
                )) by {
                    if cell_index(sq2.file as int, sq2.rank as int) == i as int {
                        assert(sq2 == here);
                    }
                }
            }
            i = i + 1;
        }
        proof {
            assert forall|sq2: Square| sq2.valid() implies (self.mask(
                sq2.file as int,
                sq2.rank as int,
            ) <==> #[trigger] policy.contains(sq2)) by {
                assert(0 <= cell_index(sq2.file as int, sq2.rank as int) < 81);
            }
        }
    }
}

impl Board {
    /// Tests whether the cell at the square is empty.
    pub fn is_empty(&self, sq: Square) -> (r: bool)
        requires
            self.wf(),
            sq.valid(),
        ensures
            r == (self.cell(sq.file as int, sq.rank as int) is None),
    {
        self.cells[sq.rank as usize * 9 + sq.file as usize].is_none()
    }

    /// Tests whether the cell at the square holds a piece of the given
    /// color.
    pub fn is_friendly(&self, sq: Square, c: Color) -> (r: bool)
        requires
            self.wf(),
            sq.valid(),
        ensures
            r == (match self.cell(sq.file as int, sq.rank as int) {
                Some(pc) => pc.color == c,
                None => false,
            }),
    {
        match self.cells[sq.rank as usize * 9 + sq.file as usize] {
            Some(pc) => pc.color == c,
            None => false,
        }
    }

    /// The piece shown on the square, if any: the renderer's read-only
    /// view of one cell.
    pub fn piece_on(&self, sq: Square) -> (r: Option<Piece>)
        requires
            self.wf(),
            sq.valid(),
        ensures
            r == self.cell(sq.file as int, sq.rank as int),
    {
        self.cells[sq.rank as usize * 9 + sq.file as usize]
    }

    /// Whether the square is highlighted as a legal destination.
    pub fn is_highlighted(&self, sq: Square) -> (r: bool)
        requires
            self.wf(),
            sq.valid(),
        ensures
            r == self.mask(sq.file as int, sq.rank as int),
    {
        self.active_moves[sq.rank as usize * 9 + sq.file as usize]
    }

    /// Whether the square is the selected one.
    pub fn is_selected(&self, sq: Square) -> (r: bool)
        ensures
            r == (self.selection == Selection::PieceSelected(sq)),
    {
        self.selection == Selection::PieceSelected(sq)
    }

    /// Whether the hand slot is the selected one.
    pub fn is_selected_hand(&self, i: usize) -> (r: bool)
        ensures
            r == (self.selection == Selection::HandSelected(i)),
    {
        self.selection == Selection::HandSelected(i)
    }

    /// The shown count of the hand slot.
    pub fn hand_count(&self, i: usize) -> (r: u8)
        requires
            self.wf(),
            i < 14,
        ensures
            r == self.hand@[i as int],
    {
        self.hand[i]
    }
}

/// Tests whether the vector holds the given square.
fn contains_square(v: &Vec<Square>, sq: Square) -> (r: bool)
    ensures
        r == v@.contains(sq),
{
    let mut i: usize = 0;
    while i < v.len()
        invariant
            i <= v@.len(),
            forall|j: int| 0 <= j < i ==> v@[j] != sq,
        decreases v@.len() - i,
    {
        if v[i] == sq {
            return true;
        }
        i = i + 1;
    }
    false
}

} // verus!
