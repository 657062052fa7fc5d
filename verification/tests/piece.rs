use shogi_session::{Color, Piece, PieceType, Square};

#[test]
fn from_sfen() {
    let ok_cases = [
        ('k', PieceType::King, Color::White),
        ('r', PieceType::Rook, Color::White),
        ('b', PieceType::Bishop, Color::White),
        ('g', PieceType::Gold, Color::White),
        ('s', PieceType::Silver, Color::White),
        ('n', PieceType::Knight, Color::White),
        ('l', PieceType::Lance, Color::White),
        ('p', PieceType::Pawn, Color::White),
        ('K', PieceType::King, Color::Black),
        ('R', PieceType::Rook, Color::Black),
        ('B', PieceType::Bishop, Color::Black),
        ('G', PieceType::Gold, Color::Black),
        ('S', PieceType::Silver, Color::Black),
        ('N', PieceType::Knight, Color::Black),
        ('L', PieceType::Lance, Color::Black),
        ('P', PieceType::Pawn, Color::Black),
    ];
    let ng_cases = ['\0', ' ', '_', 'a', 'z', '+', 'A', 'Z'];

    for case in ok_cases.iter() {
        let pc = Piece::from_sfen(case.0);
        assert!(pc.is_some());
        assert_eq!(case.1, pc.unwrap().piece_type);
        assert_eq!(case.2, pc.unwrap().color);
    }

    for case in ng_cases.iter() {
        assert!(Piece::from_sfen(*case).is_none());
    }
}

#[test]
fn to_sfen() {
    let ok_cases = [
        ("k", PieceType::King),
        ("r", PieceType::Rook),
        ("b", PieceType::Bishop),
        ("g", PieceType::Gold),
        ("s", PieceType::Silver),
        ("n", PieceType::Knight),
        ("l", PieceType::Lance),
        ("p", PieceType::Pawn),
        ("+r", PieceType::ProRook),
        ("+b", PieceType::ProBishop),
        ("+s", PieceType::ProSilver),
        ("+n", PieceType::ProKnight),
        ("+l", PieceType::ProLance),
        ("+p", PieceType::ProPawn),
    ];

    for case in ok_cases.iter() {
        let bpc = Piece { piece_type: case.1, color: Color::Black };
        let wpc = Piece { piece_type: case.1, color: Color::White };
        assert_eq!(case.0.to_uppercase(), bpc.to_sfen());
        assert_eq!(case.0, wpc.to_sfen());
    }
}

#[test]
fn promote() {
    let ok_cases = [
        (PieceType::Rook, PieceType::ProRook),
        (PieceType::Bishop, PieceType::ProBishop),
        (PieceType::Silver, PieceType::ProSilver),
        (PieceType::Knight, PieceType::ProKnight),
        (PieceType::Lance, PieceType::ProLance),
        (PieceType::Pawn, PieceType::ProPawn),
    ];
    let ng_cases = [
        PieceType::King,
        PieceType::Gold,
        PieceType::ProRook,
        PieceType::ProBishop,
        PieceType::ProSilver,
        PieceType::ProKnight,
        PieceType::ProLance,
        PieceType::ProPawn,
    ];

    for case in ok_cases.iter() {
        let bpc = Piece { piece_type: case.0, color: Color::Black }.promote().unwrap();
        let wpc = Piece { piece_type: case.0, color: Color::White }.promote().unwrap();

        assert_eq!(Piece { piece_type: case.1, color: Color::Black }, bpc);
        assert_eq!(Piece { piece_type: case.1, color: Color::White }, wpc);
    }

    for case in ng_cases.iter() {
        assert!(case.promote().is_none());
    }
}

#[test]
fn unpromote() {
    let ok_cases = [
        (PieceType::ProRook, PieceType::Rook),
        (PieceType::ProBishop, PieceType::Bishop),
        (PieceType::ProSilver, PieceType::Silver),
        (PieceType::ProKnight, PieceType::Knight),
        (PieceType::ProLance, PieceType::Lance),
        (PieceType::ProPawn, PieceType::Pawn),
    ];
    let ng_cases = [
        PieceType::King,
        PieceType::Rook,
        PieceType::Bishop,
        PieceType::Gold,
        PieceType::Silver,
        PieceType::Knight,
        PieceType::Lance,
        PieceType::Pawn,
    ];

    for case in ok_cases.iter() {
        let bpc = Piece { piece_type: case.0, color: Color::Black }.unpromote().unwrap();
        let wpc = Piece { piece_type: case.0, color: Color::White }.unpromote().unwrap();

        assert_eq!(Piece { piece_type: case.1, color: Color::Black }, bpc);
        assert_eq!(Piece { piece_type: case.1, color: Color::White }, wpc);
    }

    for case in ng_cases.iter() {
        assert!(case.unpromote().is_none());
    }
}

#[test]
fn flip() {
    let bpc = Piece { piece_type: PieceType::Pawn, color: Color::Black };
    let wpc = Piece { piece_type: PieceType::Pawn, color: Color::White };

    assert_eq!(Color::White, bpc.flip().color);
    assert_eq!(Color::Black, wpc.flip().color);
}

#[test]
fn is_placeable_at() {
    let sq_1a = Square::new(0, 0).unwrap();
    let sq_1b = Square::new(0, 1).unwrap();
    let sq_1c = Square::new(0, 2).unwrap();
    let sq_1g = Square::new(0, 6).unwrap();
    let sq_1h = Square::new(0, 7).unwrap();
    let sq_1i = Square::new(0, 8).unwrap();
    let cases = [
        (sq_1a, PieceType::Pawn, false, true),
        (sq_1b, PieceType::Pawn, true, true),
        (sq_1h, PieceType::Pawn, true, true),
        (sq_1i, PieceType::Pawn, true, false),
        (sq_1a, PieceType::Lance, false, true),
        (sq_1b, PieceType::Lance, true, true),
        (sq_1h, PieceType::Lance, true, true),
        (sq_1i, PieceType::Lance, true, false),
        (sq_1a, PieceType::Knight, false, true),
        (sq_1b, PieceType::Knight, false, true),
        (sq_1c, PieceType::Knight, true, true),
        (sq_1g, PieceType::Knight, true, true),
        (sq_1h, PieceType::Knight, true, false),
        (sq_1i, PieceType::Knight, true, false),
    ];

    for case in cases.iter() {
        let sq = case.0;
        let bpc = Piece { piece_type: case.1, color: Color::Black };
        let wpc = Piece { piece_type: case.1, color: Color::White };
        assert_eq!(case.2, bpc.is_placeable_at(sq));
        assert_eq!(case.3, wpc.is_placeable_at(sq));
    }
}
