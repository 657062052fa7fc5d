//! Pieces, colors and board squares.
//!
//! A square is a `(file, rank)` pair, each in `0..9`.  Rank `0` is the row
//! written first in a position string (the second player's home row); file
//! `0` is the rightmost column in display order, so the file axis is
//! reversed relative to the left-to-right drawing order.

use vstd::prelude::*;

verus! {

/// Side of a player.  Black moves first.
#[derive(Clone, Copy, Debug, PartialEq, Eq, Structural)]
pub enum Color {
    Black,
    White,
}

impl Color {
    /// The opposite side.
    pub open spec fn spec_flip(self) -> Color {
        match self {
            Color::Black => Color::White,
            Color::White => Color::Black,
        }
    }

    /// Returns the color of the opposite side.
    pub fn flip(self) -> (r: Color)
        ensures
            r == self.spec_flip(),
    {
        match self {
            Color::Black => Color::White,
            Color::White => Color::Black,
        }
    }

    /// A unique number for array indexing: Black is 0, White is 1.
    pub open spec fn spec_index(self) -> int {
        match self {
            Color::Black => 0,
            Color::White => 1,
        }
    }

    /// Converts the color into its index number.
    pub fn index(self) -> (r: usize)
        ensures
            r == self.spec_index(),
    {
        match self {
            Color::Black => 0,
            Color::White => 1,
        }
    }
}

/// A kind of piece, unpromoted or promoted.
#[derive(Clone, Copy, Debug, PartialEq, Eq, Structural)]
pub enum PieceType {
    King,
    Rook,
    Bishop,
    Gold,
    Silver,
    Knight,
    Lance,
    Pawn,
    ProRook,
    ProBishop,
    ProSilver,
    ProKnight,
    ProLance,
    ProPawn,
}

impl PieceType {
    /// The kind after promotion, if this kind can promote.
    pub open spec fn spec_promote(self) -> Option<PieceType> {
        match self {
            PieceType::Pawn => Some(PieceType::ProPawn),
            PieceType::Lance => Some(PieceType::ProLance),
            PieceType::Knight => Some(PieceType::ProKnight),
            PieceType::Silver => Some(PieceType::ProSilver),
            PieceType::Rook => Some(PieceType::ProRook),
            PieceType::Bishop => Some(PieceType::ProBishop),
            _ => None,
        }
    }

    /// Returns the kind after promotion, or `None` if this kind cannot promote.
    pub fn promote(self) -> (r: Option<PieceType>)
        ensures
            r == self.spec_promote(),
    {
        match self {
            PieceType::Pawn => Some(PieceType::ProPawn),
            PieceType::Lance => Some(PieceType::ProLance),
            PieceType::Knight => Some(PieceType::ProKnight),
            PieceType::Silver => Some(PieceType::ProSilver),
            PieceType::Rook => Some(PieceType::ProRook),
            PieceType::Bishop => Some(PieceType::ProBishop),
            _ => None,
        }
    }

    /// The kind before promotion, if this kind is a promoted one.
    pub open spec fn spec_unpromote(self) -> Option<PieceType> {
        match self {
            PieceType::ProPawn => Some(PieceType::Pawn),
            PieceType::ProLance => Some(PieceType::Lance),
            PieceType::ProKnight => Some(PieceType::Knight),
            PieceType::ProSilver => Some(PieceType::Silver),
            PieceType::ProRook => Some(PieceType::Rook),
            PieceType::ProBishop => Some(PieceType::Bishop),
            _ => None,
        }
    }

    /// Returns the kind before promotion, or `None` if this kind is not promoted.
    pub fn unpromote(self) -> (r: Option<PieceType>)
        ensures
            r == self.spec_unpromote(),
    {
        match self {
            PieceType::ProPawn => Some(PieceType::Pawn),
            PieceType::ProLance => Some(PieceType::Lance),
            PieceType::ProKnight => Some(PieceType::Knight),
            PieceType::ProSilver => Some(PieceType::Silver),
            PieceType::ProRook => Some(PieceType::Rook),
            PieceType::ProBishop => Some(PieceType::Bishop),
            _ => None,
        }
    }

    /// Whether this kind is one of the six promoted kinds.
    pub open spec fn spec_is_promoted(self) -> bool {
        self.spec_unpromote() is Some
    }

    /// Tests whether this kind is a promoted one.
    pub fn is_promoted(self) -> (r: bool)
        ensures
            r == self.spec_is_promoted(),
    {
        self.unpromote().is_some()
    }

    /// Whether a captured piece of this kind can be held in hand.
    pub open spec fn spec_is_hand_piece(self) -> bool {
        match self {
            PieceType::Rook | PieceType::Bishop | PieceType::Gold | PieceType::Silver
                | PieceType::Knight | PieceType::Lance | PieceType::Pawn => true,
            _ => false,
        }
    }

    /// Tests whether this kind can be a hand piece.
    pub fn is_hand_piece(self) -> (r: bool)
        ensures
            r == self.spec_is_hand_piece(),
    {
        match self {
            PieceType::Rook | PieceType::Bishop | PieceType::Gold | PieceType::Silver
                | PieceType::Knight | PieceType::Lance | PieceType::Pawn => true,
            _ => false,
        }
    }

    /// A unique number for each kind, in declaration order, `0..14`.
    pub open spec fn spec_index(self) -> int {
        match self {
            PieceType::King => 0,
            PieceType::Rook => 1,
            PieceType::Bishop => 2,
            PieceType::Gold => 3,
            PieceType::Silver => 4,
            PieceType::Knight => 5,
            PieceType::Lance => 6,
            PieceType::Pawn => 7,
            PieceType::ProRook => 8,
            PieceType::ProBishop => 9,
            PieceType::ProSilver => 10,
            PieceType::ProKnight => 11,
            PieceType::ProLance => 12,
            PieceType::ProPawn => 13,
        }
    }

    /// Converts the kind into its index number.
    pub fn index(self) -> (r: usize)
        ensures
            r == self.spec_index(),
    {
        match self {
            PieceType::King => 0,
            PieceType::Rook => 1,
            PieceType::Bishop => 2,
            PieceType::Gold => 3,
            PieceType::Silver => 4,
            PieceType::Knight => 5,
            PieceType::Lance => 6,
            PieceType::Pawn => 7,
            PieceType::ProRook => 8,
            PieceType::ProBishop => 9,
            PieceType::ProSilver => 10,
            PieceType::ProKnight => 11,
            PieceType::ProLance => 12,
            PieceType::ProPawn => 13,
        }
    }

    /// The kind with the given index number, the inverse of `spec_index`.
    pub open spec fn spec_from_index(i: int) -> Option<PieceType> {
        if i == 0 { Some(PieceType::King) }
        else if i == 1 { Some(PieceType::Rook) }
        else if i == 2 { Some(PieceType::Bishop) }
        else if i == 3 { Some(PieceType::Gold) }
        else if i == 4 { Some(PieceType::Silver) }
        else if i == 5 { Some(PieceType::Knight) }
        else if i == 6 { Some(PieceType::Lance) }
        else if i == 7 { Some(PieceType::Pawn) }
        else if i == 8 { Some(PieceType::ProRook) }
        else if i == 9 { Some(PieceType::ProBishop) }
        else if i == 10 { Some(PieceType::ProSilver) }
        else if i == 11 { Some(PieceType::ProKnight) }
        else if i == 12 { Some(PieceType::ProLance) }
        else if i == 13 { Some(PieceType::ProPawn) }
        else { None }
    }

    /// Returns the kind with the given index number, if any.
    pub fn from_index(i: usize) -> (r: Option<PieceType>)
        ensures
            r == PieceType::spec_from_index(i as int),
    {
        if i == 0 { Some(PieceType::King) }
        else if i == 1 { Some(PieceType::Rook) }
        else if i == 2 { Some(PieceType::Bishop) }
        else if i == 3 { Some(PieceType::Gold) }
        else if i == 4 { Some(PieceType::Silver) }
        else if i == 5 { Some(PieceType::Knight) }
        else if i == 6 { Some(PieceType::Lance) }
        else if i == 7 { Some(PieceType::Pawn) }
        else if i == 8 { Some(PieceType::ProRook) }
        else if i == 9 { Some(PieceType::ProBishop) }
        else if i == 10 { Some(PieceType::ProSilver) }
        else if i == 11 { Some(PieceType::ProKnight) }
        else if i == 12 { Some(PieceType::ProLance) }
        else if i == 13 { Some(PieceType::ProPawn) }
        else { None }
    }

    /// The uppercase position-string notation of the kind, as used for
    /// Black's pieces.
    pub open spec fn spec_sfen_upper(self) -> Seq<char> {
        match self {
            PieceType::King => "K"@,
            PieceType::Rook => "R"@,
            PieceType::Bishop => "B"@,
            PieceType::Gold => "G"@,
            PieceType::Silver => "S"@,
            PieceType::Knight => "N"@,
            PieceType::Lance => "L"@,
            PieceType::Pawn => "P"@,
            PieceType::ProRook => "+R"@,
            PieceType::ProBishop => "+B"@,
            PieceType::ProSilver => "+S"@,
            PieceType::ProKnight => "+N"@,
            PieceType::ProLance => "+L"@,
            PieceType::ProPawn => "+P"@,
        }
    }

    /// Returns the uppercase position-string notation of the kind.
    pub fn sfen_upper(self) -> (r: &'static str)
        ensures
            r@ == self.spec_sfen_upper(),
    {
        match self {
            PieceType::King => "K",
            PieceType::Rook => "R",
            PieceType::Bishop => "B",
            PieceType::Gold => "G",
            PieceType::Silver => "S",
            PieceType::Knight => "N",
            PieceType::Lance => "L",
            PieceType::Pawn => "P",
            PieceType::ProRook => "+R",
            PieceType::ProBishop => "+B",
            PieceType::ProSilver => "+S",
            PieceType::ProKnight => "+N",
            PieceType::ProLance => "+L",
            PieceType::ProPawn => "+P",
        }
    }

    /// The lowercase position-string notation of the kind, as used for
    /// White's pieces.
    pub open spec fn spec_sfen_lower(self) -> Seq<char> {
        match self {
            PieceType::King => "k"@,
            PieceType::Rook => "r"@,
            PieceType::Bishop => "b"@,
            PieceType::Gold => "g"@,
            PieceType::Silver => "s"@,
            PieceType::Knight => "n"@,
            PieceType::Lance => "l"@,
            PieceType::Pawn => "p"@,
            PieceType::ProRook => "+r"@,
            PieceType::ProBishop => "+b"@,
            PieceType::ProSilver => "+s"@,
            PieceType::ProKnight => "+n"@,
            PieceType::ProLance => "+l"@,
            PieceType::ProPawn => "+p"@,
        }
    }

    /// Returns the lowercase position-string notation of the kind.
    pub fn sfen_lower(self) -> (r: &'static str)
        ensures
            r@ == self.spec_sfen_lower(),
    {
        match self {
            PieceType::King => "k",
            PieceType::Rook => "r",
            PieceType::Bishop => "b",
            PieceType::Gold => "g",
            PieceType::Silver => "s",
            PieceType::Knight => "n",
            PieceType::Lance => "l",
            PieceType::Pawn => "p",
            PieceType::ProRook => "+r",
            PieceType::ProBishop => "+b",
            PieceType::ProSilver => "+s",
            PieceType::ProKnight => "+n",
            PieceType::ProLance => "+l",
            PieceType::ProPawn => "+p",
        }
    }

    /// The unpromoted kind encoded by a lowercase or uppercase letter, if any.
    pub open spec fn spec_from_sfen(c: char) -> Option<PieceType> {
        if c == 'k' || c == 'K' { Some(PieceType::King) }
        else if c == 'r' || c == 'R' { Some(PieceType::Rook) }
        else if c == 'b' || c == 'B' { Some(PieceType::Bishop) }
        else if c == 'g' || c == 'G' { Some(PieceType::Gold) }
        else if c == 's' || c == 'S' { Some(PieceType::Silver) }
        else if c == 'n' || c == 'N' { Some(PieceType::Knight) }
        else if c == 'l' || c == 'L' { Some(PieceType::Lance) }
        else if c == 'p' || c == 'P' { Some(PieceType::Pawn) }
        else { None }
    }

    /// Creates a kind from its position-string letter.
    pub fn from_sfen(c: char) -> (r: Option<PieceType>)
        ensures
            r == PieceType::spec_from_sfen(c),
    {
        if c == 'k' || c == 'K' { Some(PieceType::King) }
        else if c == 'r' || c == 'R' { Some(PieceType::Rook) }
        else if c == 'b' || c == 'B' { Some(PieceType::Bishop) }
        else if c == 'g' || c == 'G' { Some(PieceType::Gold) }
        else if c == 's' || c == 'S' { Some(PieceType::Silver) }
        else if c == 'n' || c == 'N' { Some(PieceType::Knight) }
        else if c == 'l' || c == 'L' { Some(PieceType::Lance) }
        else if c == 'p' || c == 'P' { Some(PieceType::Pawn) }
        else { None }
    }
}

/// A position of a cell on the board: `file` and `rank`, each in `0..9`.
#[derive(Clone, Copy, Debug, PartialEq, Eq, Structural)]
pub struct Square {
    pub file: u8,
    pub rank: u8,
}

impl Square {
    /// Both coordinates are on the board.
    pub open spec fn valid(self) -> bool {
        self.file < 9 && self.rank < 9
    }

    /// Creates a new square, or `None` if a coordinate is off the board.
    pub fn new(file: u8, rank: u8) -> (r: Option<Square>)
        ensures
            (file < 9 && rank < 9) ==> r == Some(Square { file, rank }),
            !(file < 9 && rank < 9) ==> r is None,
    {
        if file > 8 || rank > 8 {
            None
        } else {
            Some(Square { file, rank })
        }
    }

    /// The rank as seen from the given side: for White the board is turned around.
    pub open spec fn spec_relative_rank(self, c: Color) -> int {
        if c == Color::Black {
            self.rank as int
        } else {
            8 - self.rank as int
        }
    }

    /// Returns the rank as if the given color were the first player.
    pub fn relative_rank(self, c: Color) -> (r: u8)
        requires
            self.valid(),
        ensures
            r as int == self.spec_relative_rank(c),
    {
        if c == Color::Black {
            self.rank
        } else {
            8 - self.rank
        }
    }

    /// Whether the square lies in the promotion zone of the given side.
    pub open spec fn spec_in_promotion_zone(self, c: Color) -> bool {
        self.spec_relative_rank(c) < 3
    }

    /// Tests whether the square is in the given side's promotion zone.
    pub fn in_promotion_zone(self, c: Color) -> (r: bool)
        requires
            self.valid(),
        ensures
            r == self.spec_in_promotion_zone(c),
    {
        self.relative_rank(c) < 3
    }
}

/// A piece on the game board: a kind together with its owner's color.
#[derive(Clone, Copy, Debug, PartialEq, Eq, Structural)]
pub struct Piece {
    pub piece_type: PieceType,
    pub color: Color,
}

impl Piece {
    /// The piece encoded by one position-string letter: uppercase letters
    /// stand for Black's pieces, lowercase for White's.
    pub open spec fn spec_from_sfen(c: char) -> Option<Piece> {
        match PieceType::spec_from_sfen(c) {
            Some(pt) => Some(
                Piece {
                    piece_type: pt,
                    color: if 'A' <= c <= 'Z' { Color::Black } else { Color::White },
                },
            ),
            None => None,
        }
    }

    /// Creates a new instance of `Piece` from a position-string letter.
    pub fn from_sfen(c: char) -> (r: Option<Piece>)
        ensures
            r == Piece::spec_from_sfen(c),
    {
        let color = if 'A' <= c && c <= 'Z' {
            Color::Black
        } else {
            Color::White
        };
        match PieceType::from_sfen(c) {
            Some(piece_type) => Some(Piece { piece_type, color }),
            None => None,
        }
    }

    /// Returns the piece after promotion, keeping the color, or `None` if
    /// its kind cannot promote.
    pub fn promote(self) -> (r: Option<Piece>)
        ensures
            match self.piece_type.spec_promote() {
                Some(pt) => r == Some(Piece { piece_type: pt, color: self.color }),
                None => r is None,
            },
    {
        match self.piece_type.promote() {
            Some(pt) => Some(Piece { piece_type: pt, color: self.color }),
            None => None,
        }
    }

    /// Returns the piece before promotion, keeping the color, or `None` if
    /// its kind is not a promoted one.
    pub fn unpromote(self) -> (r: Option<Piece>)
        ensures
            match self.piece_type.spec_unpromote() {
                Some(pt) => r == Some(Piece { piece_type: pt, color: self.color }),
                None => r is None,
            },
    {
        match self.piece_type.unpromote() {
            Some(pt) => Some(Piece { piece_type: pt, color: self.color }),
            None => None,
        }
    }

    /// The same piece owned by the opposite side.
    pub open spec fn spec_flip(self) -> Piece {
        Piece { piece_type: self.piece_type, color: self.color.spec_flip() }
    }

    /// Returns the piece with the reversed color.
    pub fn flip(self) -> (r: Piece)
        ensures
            r == self.spec_flip(),
    {
        Piece { piece_type: self.piece_type, color: self.color.flip() }
    }

    /// The position-string notation of the piece: uppercase for Black,
    /// lowercase for White.
    pub open spec fn spec_to_sfen(self) -> Seq<char> {
        match self.color {
            Color::Black => self.piece_type.spec_sfen_upper(),
            Color::White => self.piece_type.spec_sfen_lower(),
        }
    }

    /// Renders the piece in position-string notation.
    pub fn to_sfen(self) -> (r: &'static str)
        ensures
            r@ == self.spec_to_sfen(),
    {
        match self.color {
            Color::Black => self.piece_type.sfen_upper(),
            Color::White => self.piece_type.sfen_lower(),
        }
    }

    /// Whether the piece could ever move again from the given square:
    /// pawns and lances need at least one row ahead, knights two.
    pub open spec fn spec_is_placeable_at(self, sq: Square) -> bool {
        match self.piece_type {
            PieceType::Pawn | PieceType::Lance => sq.spec_relative_rank(self.color) > 0,
            PieceType::Knight => sq.spec_relative_rank(self.color) > 1,
            _ => true,
        }
    }

    /// Tests if it is legal to place this piece at the given square.
    pub fn is_placeable_at(self, sq: Square) -> (r: bool)
        requires
            sq.valid(),
        ensures
            r == self.spec_is_placeable_at(sq),
    {
        match self.piece_type {
            PieceType::Pawn | PieceType::Lance => sq.relative_rank(self.color) > 0,
            PieceType::Knight => sq.relative_rank(self.color) > 1,
            _ => true,
        }
    }
}

} // verus!
