use vstd::prelude::*;

verus! {

/// One cell of the 8x8 board, numbered 0 through 63.
#[derive(Clone, Copy, Debug, PartialEq, Eq, Structural)]
pub struct Square(pub u8);

impl Square {
    /// A square is well formed when its number names one of the 64 cells.
    pub open spec fn wf(self) -> bool {
        self.0 < 64
    }

    /// Wraps a cell number known to be in range. Callers with unvalidated
    /// input use `try_new` instead.
    pub fn new(value: u8) -> (r: Square)
        requires
            value < 64,
        ensures
            r == Square(value),
            r.wf(),
    {
        Square(value)
    }

    /// Checked companion of `new`: rejects every number 64 and above.
    pub fn try_new(value: u8) -> (r: Option<Square>)
        ensures
            value < 64 ==> r == Some(Square(value)),
            value >= 64 ==> r is None,
    {
        if value < 64 {
            Some(Square(value))
        } else {
            None
        }
    }
}

/// A piece identity supplied by the board model, carried opaquely; 0 is the
/// sentinel "no piece".
#[derive(Clone, Copy, Debug, PartialEq, Eq, Structural)]
pub struct Piece(pub u8);

impl Default for Piece {
    /// The sentinel "no piece".
    fn default() -> (r: Piece)
        ensures
            r == Piece(0),
    {
        Piece(0)
    }
}

/// The kinds of moves, encoded in 4 bits: bit 3 is the promotion flag, bit 2
/// the capture flag, bits 1 and 0 select within the flag group.
#[derive(Clone, Copy, Debug, PartialEq, Eq, Structural)]
pub enum MoveType {
    Quiet,
    /// A double pawn push (allows en passant next ply).
    DoublePawnPush,
    KingsideCastle,
    QueensideCastle,
    /// A capture that is not a promotion.
    Capture,
    EnPassant,
    PromotionToKnight,
    PromotionToBishop,
    PromotionToRook,
    PromotionToQueen,
    PromotionCaptureToKnight,
    PromotionCaptureToBishop,
    PromotionCaptureToRook,
    PromotionCaptureToQueen,
}

impl MoveType {
    /// The 4-bit pattern of this kind. The patterns are load-bearing: they
    /// are packed verbatim into the top bits of a `Move`.
    pub open spec fn spec_bits(self) -> u16 {
        match self {
            MoveType::Quiet => 0b0000,
            MoveType::DoublePawnPush => 0b0001,
            MoveType::KingsideCastle => 0b0010,
            MoveType::QueensideCastle => 0b0011,
            MoveType::Capture => 0b0100,
            MoveType::EnPassant => 0b0101,
            MoveType::PromotionToKnight => 0b1000,
            MoveType::PromotionToBishop => 0b1001,
            MoveType::PromotionToRook => 0b1010,
            MoveType::PromotionToQueen => 0b1011,
            MoveType::PromotionCaptureToKnight => 0b1100,
            MoveType::PromotionCaptureToBishop => 0b1101,
            MoveType::PromotionCaptureToRook => 0b1110,
            MoveType::PromotionCaptureToQueen => 0b1111,
        }
    }

    /// Whether a 4-bit pattern encodes a kind: the patterns 0b0110 and
    /// 0b0111 are the only ones that encode none.
    pub open spec fn valid_bits(b: u16) -> bool {
        b < 16 && b != 6 && b != 7
    }

    /// The kind a valid 4-bit pattern encodes (an arbitrary fixed kind on
    /// the patterns that encode none).
    pub open spec fn spec_from_bits(b: u16) -> MoveType {
        if b == 0 {
            MoveType::Quiet
        } else if b == 1 {
            MoveType::DoublePawnPush
        } else if b == 2 {
            MoveType::KingsideCastle
        } else if b == 3 {
            MoveType::QueensideCastle
        } else if b == 4 {
            MoveType::Capture
        } else if b == 5 {
            MoveType::EnPassant
        } else if b == 8 {
            MoveType::PromotionToKnight
        } else if b == 9 {
            MoveType::PromotionToBishop
        } else if b == 10 {
            MoveType::PromotionToRook
        } else if b == 11 {
            MoveType::PromotionToQueen
        } else if b == 12 {
            MoveType::PromotionCaptureToKnight
        } else if b == 13 {
            MoveType::PromotionCaptureToBishop
        } else if b == 14 {
            MoveType::PromotionCaptureToRook
        } else {
            MoveType::PromotionCaptureToQueen
        }
    }

    /// The kinds that capture: plain and en-passant captures, and the four
    /// capturing promotions.
    pub open spec fn is_capture_kind(self) -> bool {
        match self {
            MoveType::Capture => true,
            MoveType::EnPassant => true,
            MoveType::PromotionCaptureToKnight => true,
            MoveType::PromotionCaptureToBishop => true,
            MoveType::PromotionCaptureToRook => true,
            MoveType::PromotionCaptureToQueen => true,
            _ => false,
        }
    }

    /// The eight kinds that promote, capturing or not.
    pub open spec fn is_promotion_kind(self) -> bool {
        match self {
            MoveType::PromotionToKnight => true,
            MoveType::PromotionToBishop => true,
            MoveType::PromotionToRook => true,
            MoveType::PromotionToQueen => true,
            MoveType::PromotionCaptureToKnight => true,
            MoveType::PromotionCaptureToBishop => true,
            MoveType::PromotionCaptureToRook => true,
            MoveType::PromotionCaptureToQueen => true,
            _ => false,
        }
    }

    /// The two castling kinds.
    pub open spec fn is_castling_kind(self) -> bool {
        match self {
            MoveType::KingsideCastle => true,
            MoveType::QueensideCastle => true,
            _ => false,
        }
    }

    /// The 4-bit pattern of this kind.
    pub fn bits(self) -> (r: u16)
        ensures
            r == self.spec_bits(),
    {
        match self {
            MoveType::Quiet => 0b0000,
            MoveType::DoublePawnPush => 0b0001,
            MoveType::KingsideCastle => 0b0010,
            MoveType::QueensideCastle => 0b0011,
            MoveType::Capture => 0b0100,
            MoveType::EnPassant => 0b0101,
            MoveType::PromotionToKnight => 0b1000,
            MoveType::PromotionToBishop => 0b1001,
            MoveType::PromotionToRook => 0b1010,
            MoveType::PromotionToQueen => 0b1011,
            MoveType::PromotionCaptureToKnight => 0b1100,
            MoveType::PromotionCaptureToBishop => 0b1101,
            MoveType::PromotionCaptureToRook => 0b1110,
            MoveType::PromotionCaptureToQueen => 0b1111,
        }
    }

    /// Decodes a 4-bit pattern, rejecting the two patterns that encode no
    /// kind and anything above 4 bits.
    pub fn try_from_bits(b: u16) -> (r: Option<MoveType>)
        ensures
            MoveType::valid_bits(b) ==> r == Some(MoveType::spec_from_bits(b)),
            !MoveType::valid_bits(b) ==> r is None,
    {
        if b == 0 {
            Some(MoveType::Quiet)
        } else if b == 1 {
            Some(MoveType::DoublePawnPush)
        } else if b == 2 {
            Some(MoveType::KingsideCastle)
        } else if b == 3 {
            Some(MoveType::QueensideCastle)
        } else if b == 4 {
            Some(MoveType::Capture)
        } else if b == 5 {
            Some(MoveType::EnPassant)
        } else if b == 8 {
            Some(MoveType::PromotionToKnight)
        } else if b == 9 {
            Some(MoveType::PromotionToBishop)
        } else if b == 10 {
            Some(MoveType::PromotionToRook)
        } else if b == 11 {
            Some(MoveType::PromotionToQueen)
        } else if b == 12 {
            Some(MoveType::PromotionCaptureToKnight)
        } else if b == 13 {
            Some(MoveType::PromotionCaptureToBishop)
        } else if b == 14 {
            Some(MoveType::PromotionCaptureToRook)
        } else if b == 15 {
            Some(MoveType::PromotionCaptureToQueen)
        } else {
            None
        }
    }
}

/// Encoding a kind and decoding the pattern restores the kind, for every
/// kind; every kind's pattern is valid.
pub proof fn lemma_kind_bits_round_trip(k: MoveType)
    ensures
        MoveType::valid_bits(k.spec_bits()),
        MoveType::spec_from_bits(k.spec_bits()) == k,
{
}

/// Decoding a valid pattern and encoding the kind restores the pattern.
pub proof fn lemma_bits_kind_round_trip(b: u16)
    requires
        MoveType::valid_bits(b),
    ensures
        MoveType::spec_from_bits(b).spec_bits() == b,
{
}

/// For every kind, the capture flag (bit 2 of the pattern) is set exactly
/// for the six capturing kinds, and the promotion flag (bit 3) exactly for
/// the eight promoting kinds.
pub proof fn lemma_flag_bits_classify(k: MoveType)
    ensures
        (k.spec_bits() & 0b0100 != 0) == k.is_capture_kind(),
        (k.spec_bits() & 0b1000 != 0) == k.is_promotion_kind(),
{
    let b = k.spec_bits();
    assert((b & 0b0100 != 0) == (b == 4 || b == 5 || b == 6 || b == 7 || b == 12 || b == 13
        || b == 14 || b == 15)) by (bit_vector)
        requires
            b < 16,
    ;
    assert((b & 0b1000 != 0) == (b == 8 || b == 9 || b == 10 || b == 11 || b == 12 || b == 13
        || b == 14 || b == 15)) by (bit_vector)
        requires
            b < 16,
    ;
}

/// A move packed into sixteen bits: the start square in bits 0-5, the
/// target square in bits 6-11 and the kind's pattern in bits 12-15.
/// Equality is equality of the packed value; the zero value is the
/// "no move" sentinel.
#[derive(Clone, Copy, Debug, PartialEq, Eq, Structural)]
pub struct Move(pub u16);

impl Move {
    pub const START_MASK: u16 = 0b0000_0000_0011_1111;

    pub const TARGET_MASK: u16 = 0b0000_1111_1100_0000;

    /// The start square held in bits 0-5.
    pub open spec fn spec_start(self) -> u8 {
        (self.0 & 0x3f) as u8
    }

    /// The target square held in bits 6-11.
    pub open spec fn spec_target(self) -> u8 {
        ((self.0 >> 6) & 0x3f) as u8
    }

    /// The kind pattern held in bits 12-15.
    pub open spec fn spec_kind_bits(self) -> u16 {
        self.0 >> 12
    }

    /// The kind held in bits 12-15.
    pub open spec fn spec_kind(self) -> MoveType {
        MoveType::spec_from_bits(self.spec_kind_bits())
    }

    /// A move is well formed when its kind pattern encodes a kind. Every
    /// move built by `new` is; the squares are in range by construction.
    pub open spec fn wf(self) -> bool {
        MoveType::valid_bits(self.spec_kind_bits())
    }

    /// The value a move packs to: the start square, the target square
    /// shifted up 6 bits and the kind's pattern shifted up 12.
    pub open spec fn spec_pack(start: u8, target: u8, kind: MoveType) -> u16 {
        (start + target * 64 + kind.spec_bits() * 4096) as u16
    }

    /// Packs a start square, a target square and a kind.
    pub fn new(start: Square, target: Square, move_type: MoveType) -> (r: Move)
        requires
            start.wf(),
            target.wf(),
        ensures
            r == Move(Move::spec_pack(start.0, target.0, move_type)),
            r.spec_start() == start.0,
            r.spec_target() == target.0,
            r.spec_kind() == move_type,
            r.wf(),
    {
        let kb = move_type.bits();
        let packed: u16 = start.0 as u16 | (target.0 as u16) << 6 | kb << 12;
        proof {
            lemma_kind_bits_round_trip(move_type);
            let s = start.0;
            let t = target.0;
            assert((s as u16 | (t as u16) << 6 | kb << 12) == (s + t * 64 + kb * 4096) as u16)
                by (bit_vector)
                requires
                    s < 64,
                    t < 64,
                    kb < 16,
            ;
            lemma_pack_round_trip(s, t, move_type);
        }
        Move(packed)
    }

    /// The start square, extracted by masking the low 6 bits.
    pub fn start(self) -> (r: Square)
        ensures
            r == Square(self.spec_start()),
            r.wf(),
    {
        let v: u16 = self.0 & Self::START_MASK;
        proof {
            let x = self.0;
            assert(((x & 0x3f) as u8) < 64) by (bit_vector);
        }
        Square(v as u8)
    }

    /// The target square, extracted by masking bits 6-11 and shifting down.
    pub fn target(self) -> (r: Square)
        ensures
            r == Square(self.spec_target()),
            r.wf(),
    {
        let v: u16 = (self.0 & Self::TARGET_MASK) >> 6;
        proof {
            let x = self.0;
            assert((x & 0xfc0) >> 6 == (x >> 6) & 0x3f) by (bit_vector);
            assert((((x >> 6) & 0x3f) as u8) < 64) by (bit_vector);
        }
        Square(v as u8)
    }

    /// The kind, decoded from the top 4 bits by the explicit total mapping.
    pub fn kind(self) -> (r: MoveType)
        requires
            self.wf(),
        ensures
            r == self.spec_kind(),
    {
        let b: u16 = self.0 >> 12;
        proof {
            let x = self.0;
            assert(x >> 12 < 16) by (bit_vector);
        }
        if b == 0 {
            MoveType::Quiet
        } else if b == 1 {
            MoveType::DoublePawnPush
        } else if b == 2 {
            MoveType::KingsideCastle
        } else if b == 3 {
            MoveType::QueensideCastle
        } else if b == 4 {
            MoveType::Capture
        } else if b == 5 {
            MoveType::EnPassant
        } else if b == 8 {
            MoveType::PromotionToKnight
        } else if b == 9 {
            MoveType::PromotionToBishop
        } else if b == 10 {
            MoveType::PromotionToRook
        } else if b == 11 {
            MoveType::PromotionToQueen
        } else if b == 12 {
            MoveType::PromotionCaptureToKnight
        } else if b == 13 {
            MoveType::PromotionCaptureToBishop
        } else if b == 14 {
            MoveType::PromotionCaptureToRook
        } else {
            MoveType::PromotionCaptureToQueen
        }
    }

    /// Whether this move is an en-passant capture.
    pub fn is_en_passant(self) -> (r: bool)
        requires
            self.wf(),
        ensures
            r == (self.spec_kind() == MoveType::EnPassant),
    {
        matches!(self.kind(), MoveType::EnPassant)
    }

    /// Whether this move castles, on either wing.
    pub fn is_castling(self) -> (r: bool)
        requires
            self.wf(),
        ensures
            r == self.spec_kind().is_castling_kind(),
    {
        matches!(self.kind(), MoveType::KingsideCastle) || matches!(
            self.kind(),
            MoveType::QueensideCastle,
        )
    }

    /// Whether this move captures. The body tests the capture flag, bit 14
    /// of the packed value; the contract states the kind-based
    /// classification, so verifying it shows the two formulations agree.
    pub fn is_capture(self) -> (r: bool)
        requires
            self.wf(),
        ensures
            r == self.spec_kind().is_capture_kind(),
    {
        let r = (self.0 >> 14) & 1 != 0;
        proof {
            lemma_bits_kind_round_trip(self.spec_kind_bits());
            lemma_flag_bits_classify(self.spec_kind());
            let x = self.0;
            assert(((x >> 14) & 1 != 0) == ((x >> 12) & 0b0100 != 0)) by (bit_vector);
        }
        r
    }

    /// Whether this move promotes, capturing or not.
    pub fn is_promotion(self) -> (r: bool)
        requires
            self.wf(),
        ensures
            r == self.spec_kind().is_promotion_kind(),
    {
        match self.kind() {
            MoveType::PromotionToKnight => true,
            MoveType::PromotionToBishop => true,
            MoveType::PromotionToRook => true,
            MoveType::PromotionToQueen => true,
            MoveType::PromotionCaptureToKnight => true,
            MoveType::PromotionCaptureToBishop => true,
            MoveType::PromotionCaptureToRook => true,
            MoveType::PromotionCaptureToQueen => true,
            _ => false,
        }
    }
}

impl Default for Move {
    /// The zero move: start 0, target 0, kind `Quiet` - the "no move"
    /// sentinel.
    fn default() -> (r: Move)
        ensures
            r == Move(0),
            r.spec_start() == 0,
            r.spec_target() == 0,
            r.spec_kind() == MoveType::Quiet,
            r.wf(),
    {
        proof {
            lemma_zero_move_sentinel();
        }
        Move(0)
    }
}

/// Decoding the three fields of a packed move returns exactly the start,
/// target and kind it was packed from, for all squares and all kinds.
pub proof fn lemma_pack_round_trip(start: u8, target: u8, kind: MoveType)
    requires
        start < 64,
        target < 64,
    ensures
        Move(Move::spec_pack(start, target, kind)).wf(),
        Move(Move::spec_pack(start, target, kind)).spec_start() == start,
        Move(Move::spec_pack(start, target, kind)).spec_target() == target,
        Move(Move::spec_pack(start, target, kind)).spec_kind() == kind,
{
    lemma_kind_bits_round_trip(kind);
    let kb = kind.spec_bits();
    assert((((start + target * 64 + kb * 4096) as u16) & 0x3f) as u8 == start) by (bit_vector)
        requires
            start < 64,
            target < 64,
            kb < 16,
    ;
    assert(((((start + target * 64 + kb * 4096) as u16) >> 6) & 0x3f) as u8 == target)
        by (bit_vector)
        requires
            start < 64,
            target < 64,
            kb < 16,
    ;
    assert(((start + target * 64 + kb * 4096) as u16) >> 12 == kb) by (bit_vector)
        requires
            start < 64,
            target < 64,
            kb < 16,
    ;
}

/// The zero move is the sentinel: it decodes to start 0, target 0 and kind
/// `Quiet`, and it equals a move freshly packed from those arguments.
pub proof fn lemma_zero_move_sentinel()
    ensures
        Move(0).wf(),
        Move(0).spec_start() == 0,
        Move(0).spec_target() == 0,
        Move(0).spec_kind() == MoveType::Quiet,
        Move::spec_pack(0, 0, MoveType::Quiet) == 0,
{
    assert(0u16 & 0x3f == 0) by (bit_vector);
    assert((0u16 >> 6) & 0x3f == 0) by (bit_vector);
    assert(0u16 >> 12 == 0) by (bit_vector);
}

/// A move paired with the identity of the piece that makes it, because the
/// packed move alone cannot say which piece moved.
#[derive(Clone, Copy, Debug, PartialEq, Eq, Structural)]
pub struct FullMove {
    pub piece: Piece,
    pub inner_move: Move,
}

impl FullMove {
    /// Pairs a piece with a move; a pure aggregate, no validation.
    pub fn new(piece: Piece, mv: Move) -> (r: FullMove)
        ensures
            r.piece == piece,
            r.inner_move == mv,
    {
        FullMove { piece, inner_move: mv }
    }
}

impl Default for FullMove {
    /// "No move": the sentinel piece paired with the zero move.
    fn default() -> (r: FullMove)
        ensures
            r.piece == Piece(0),
            r.inner_move == Move(0),
            r.inner_move.spec_start() == 0,
            r.inner_move.spec_target() == 0,
            r.inner_move.spec_kind() == MoveType::Quiet,
    {
        proof {
            lemma_zero_move_sentinel();
        }
        FullMove { piece: Piece(0), inner_move: Move(0) }
    }
}

} // verus!
