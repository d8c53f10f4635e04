use chess_core::{FullMove, Move, MoveType, Piece, Square};

fn all_kinds() -> Vec<MoveType> {
    vec![
        MoveType::Quiet,
        MoveType::DoublePawnPush,
        MoveType::KingsideCastle,
        MoveType::QueensideCastle,
        MoveType::Capture,
        MoveType::EnPassant,
        MoveType::PromotionToKnight,
        MoveType::PromotionToBishop,
        MoveType::PromotionToRook,
        MoveType::PromotionToQueen,
        MoveType::PromotionCaptureToKnight,
        MoveType::PromotionCaptureToBishop,
        MoveType::PromotionCaptureToRook,
        MoveType::PromotionCaptureToQueen,
    ]
}

#[test]
fn round_trip_all_kinds() {
    for kind in all_kinds() {
        let m = Move::new(Square::new(17), Square::new(42), kind);
        assert_eq!(m.start(), Square(17));
        assert_eq!(m.target(), Square(42));
        assert_eq!(m.kind(), kind);
    }
}

#[test]
fn round_trip_all_squares() {
    for start in 0u8..64 {
        for target in 0u8..64 {
            let m = Move::new(Square::new(start), Square::new(target), MoveType::Capture);
            assert_eq!(m.start(), Square(start));
            assert_eq!(m.target(), Square(target));
            assert_eq!(m.kind(), MoveType::Capture);
        }
    }
}

#[test]
fn capture_classification_table() {
    let captures = [
        MoveType::Capture,
        MoveType::EnPassant,
        MoveType::PromotionCaptureToKnight,
        MoveType::PromotionCaptureToBishop,
        MoveType::PromotionCaptureToRook,
        MoveType::PromotionCaptureToQueen,
    ];
    for kind in all_kinds() {
        let m = Move::new(Square::new(0), Square::new(0), kind);
        assert_eq!(m.is_capture(), captures.contains(&kind));
    }
}

#[test]
fn promotion_classification_table() {
    let promotions = [
        MoveType::PromotionToKnight,
        MoveType::PromotionToBishop,
        MoveType::PromotionToRook,
        MoveType::PromotionToQueen,
        MoveType::PromotionCaptureToKnight,
        MoveType::PromotionCaptureToBishop,
        MoveType::PromotionCaptureToRook,
        MoveType::PromotionCaptureToQueen,
    ];
    for kind in all_kinds() {
        let m = Move::new(Square::new(9), Square::new(1), kind);
        assert_eq!(m.is_promotion(), promotions.contains(&kind));
    }
}

#[test]
fn castling_classification_table() {
    let castles = [MoveType::KingsideCastle, MoveType::QueensideCastle];
    for kind in all_kinds() {
        let m = Move::new(Square::new(4), Square::new(2), kind);
        assert_eq!(m.is_castling(), castles.contains(&kind));
    }
}

#[test]
fn en_passant_classification_table() {
    for kind in all_kinds() {
        let m = Move::new(Square::new(33), Square::new(40), kind);
        assert_eq!(m.is_en_passant(), kind == MoveType::EnPassant);
    }
}

#[test]
fn scenario_double_pawn_push() {
    let m = Move::new(Square::new(12), Square::new(28), MoveType::DoublePawnPush);
    assert_eq!(m.0, 12 | (28 << 6) | (1 << 12));
    assert_eq!(m.0, 5900);
    assert_eq!(m.start(), Square(12));
    assert_eq!(m.target(), Square(28));
    assert_eq!(m.kind(), MoveType::DoublePawnPush);
    assert!(!m.is_capture());
    assert!(!m.is_promotion());
    assert!(!m.is_castling());
}

#[test]
fn scenario_kingside_castle() {
    let m = Move::new(Square::new(4), Square::new(6), MoveType::KingsideCastle);
    assert_eq!(m.0, 4 | (6 << 6) | (2 << 12));
    assert_eq!(m.0, 8580);
    assert!(m.is_castling());
    assert!(!m.is_capture());
}

#[test]
fn scenario_promotion_capture_to_queen() {
    let m = Move::new(Square::new(52), Square::new(61), MoveType::PromotionCaptureToQueen);
    assert_eq!(m.0, 52 | (61 << 6) | (15 << 12));
    assert_eq!(m.0, 65396);
    assert_eq!(m.start(), Square(52));
    assert_eq!(m.target(), Square(61));
    assert!(m.is_promotion());
    assert!(m.is_capture());
}

#[test]
fn default_move_is_zero_sentinel() {
    let m = Move::default();
    assert_eq!(m, Move(0));
    assert_eq!(m.start(), Square(0));
    assert_eq!(m.target(), Square(0));
    assert_eq!(m.kind(), MoveType::Quiet);
    assert_eq!(m, Move::new(Square::new(0), Square::new(0), MoveType::Quiet));
}

#[test]
fn default_full_move_is_sentinel() {
    let fm = FullMove::default();
    assert_eq!(fm.piece, Piece::default());
    assert_eq!(fm.inner_move, Move(0));
    assert_eq!(fm.inner_move, Move::new(Square::new(0), Square::new(0), MoveType::Quiet));
    assert_eq!(fm, FullMove::new(Piece::default(), Move::default()));
}

#[test]
fn full_move_new_keeps_fields() {
    let m = Move::new(Square::new(8), Square::new(16), MoveType::Quiet);
    let fm = FullMove::new(Piece(3), m);
    assert_eq!(fm.piece, Piece(3));
    assert_eq!(fm.inner_move, m);
}

#[test]
fn square_try_new_bounds() {
    assert_eq!(Square::try_new(0), Some(Square(0)));
    assert_eq!(Square::try_new(63), Some(Square(63)));
    assert_eq!(Square::try_new(64), None);
    assert_eq!(Square::try_new(255), None);
}

#[test]
fn move_type_bits_round_trip() {
    for kind in all_kinds() {
        assert_eq!(MoveType::try_from_bits(kind.bits()), Some(kind));
    }
}

#[test]
fn move_type_invalid_bits_rejected() {
    assert_eq!(MoveType::try_from_bits(6), None);
    assert_eq!(MoveType::try_from_bits(7), None);
    assert_eq!(MoveType::try_from_bits(16), None);
    assert_eq!(MoveType::try_from_bits(u16::MAX), None);
}
