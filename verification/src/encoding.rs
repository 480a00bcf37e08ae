use vstd::prelude::*;
use crate::role::{Role, option_letter, is_role_code};
use crate::text::{push_char, push_square, square_name};

verus! {

/// The side towards which the king castles.
#[derive(Clone, Copy, Debug, PartialEq, Eq, Structural)]
pub enum CastlingSide {
    KingSide,
    QueenSide,
}

/// The form in which a move was written in standard algebraic notation.
#[derive(Clone, Copy, Debug, PartialEq, Eq, Structural)]
pub enum SanKind {
    /// A piece or pawn move such as `Nf3`, `exd5` or `e8=Q`.
    Normal,
    /// `O-O` or `O-O-O`.
    Castle(CastlingSide),
    /// A piece drop such as `Q@g8`.
    Put,
    /// The null move `--`.
    Null,
}

/// Square indices used by castling: the king's start and target squares.
pub const E1: u8 = 4;
pub const C1: u8 = 2;
pub const G1: u8 = 6;
pub const E8: u8 = 60;
pub const C8: u8 = 58;
pub const G8: u8 = 62;

/// The inputs on which `castle_position` gives a square: a normal move, or castling
/// with the king on its start square.
pub open spec fn castle_position_defined(kind: SanKind, from: u8) -> bool {
    match kind {
        SanKind::Normal => true,
        SanKind::Castle(_) => from == E1 || from == E8,
        _ => false,
    }
}

/// Whether `castle_position` gives a square for these inputs.
pub fn castle_position_defined_exec(kind: SanKind, from: u8) -> (b: bool)
    ensures
        b == castle_position_defined(kind, from),
{
    match kind {
        SanKind::Normal => true,
        SanKind::Castle(_) => from == E1 || from == E8,
        _ => false,
    }
}

/// The target square of a move as the notation writes it: for castling the square the
/// king lands on, otherwise the move's own target square.
pub open spec fn spec_castle_position(kind: SanKind, from: u8, to: u8) -> u8 {
    match kind {
        SanKind::Castle(CastlingSide::QueenSide) => if from == E8 { C8 } else { C1 },
        SanKind::Castle(CastlingSide::KingSide) => if from == E8 { G8 } else { G1 },
        _ => to,
    }
}

/// The king's target square for castling (the chess library reports the rook's square
/// as the target of a castling move), and `to` itself for any other move.
pub fn castle_position(kind: SanKind, from: u8, to: u8) -> (sq: u8)
    requires
        castle_position_defined(kind, from),
    ensures
        sq == spec_castle_position(kind, from, to),
{
    match kind {
        SanKind::Castle(CastlingSide::QueenSide) => if from == E8 { C8 } else { C1 },
        SanKind::Castle(CastlingSide::KingSide) => if from == E8 { G8 } else { G1 },
        _ => to,
    }
}

/// A move as T-notation records it: the moving piece, an optional promotion and the
/// origin and target squares (indices `0` for a1 to `63` for h8).
#[derive(Clone, Copy, Debug, PartialEq, Eq, Structural)]
pub struct TMove {
    pub role: Role,
    pub promotion: Option<Role>,
    pub from: u8,
    pub to: u8,
}

impl TMove {
    /// Both squares are on the board.
    pub open spec fn wf(self) -> bool {
        self.from < 64 && self.to < 64
    }

    /// Only pawns promote.
    pub open spec fn pawn_promotion(self) -> bool {
        self.promotion is Some ==> self.role == Role::Pawn
    }

    /// The text form: role letter, promotion letter or `-`, origin square, target square,
    /// e.g. `p-e2e4` or `pqe7e8`.
    pub open spec fn notation(self) -> Seq<char> {
        seq![self.role.letter(), option_letter(self.promotion)] + square_name(self.from)
            + square_name(self.to)
    }

    /// Bit 0 of the packed form: set for a promotion.
    pub open spec fn promotion_flag(self) -> int {
        if self.promotion is Some { 1 } else { 0 }
    }

    /// Bits 1 to 3 of the packed form: the promotion piece, or else the moving piece.
    pub open spec fn piece_code(self) -> int {
        match self.promotion {
            Some(p) => p.code() as int,
            None => self.role.code() as int,
        }
    }

    /// The packed form: promotion flag in bit 0, piece in bits 1-3, origin square in
    /// bits 4-9 and target square in bits 10-15.
    pub open spec fn encoded(self) -> u16 {
        (self.promotion_flag() + 2 * self.piece_code() + 16 * self.from + 1024 * self.to) as u16
    }

    /// The packed form of the move.
    pub fn to_bits(&self) -> (bits: u16)
        requires
            self.wf(),
        ensures
            bits == self.encoded(),
    {
        let role: u16 = self.role.to_u16();
        let from: u16 = self.from as u16;
        let to: u16 = self.to as u16;
        let promotion: u16 = match self.promotion {
            None => 0,
            Some(x) => x.to_u16(),
        };
        if promotion == 0 {
            assert((role << 1u16) + (from << 4u16) + (to << 10u16) == role * 2 + from * 16 + to
                * 1024) by (bit_vector)
                requires
                    role < 8 && from < 64 && to < 64,
            ;
            (role << 1u16) + (from << 4u16) + (to << 10u16)
        } else {
            assert(1 + (promotion << 1u16) + (from << 4u16) + (to << 10u16) == 1 + promotion * 2
                + from * 16 + to * 1024) by (bit_vector)
                requires
                    promotion < 8 && from < 64 && to < 64,
            ;
            1 + (promotion << 1u16) + (from << 4u16) + (to << 10u16)
        }
    }

    /// The text form of the move.
    pub fn notation_string(&self) -> (s: String)
        requires
            self.wf(),
        ensures
            s@ == self.notation(),
    {
        let mut s = String::new();
        push_char(&mut s, self.role.char());
        push_char(&mut s, Role::to_char(self.promotion));
        push_square(&mut s, self.from);
        push_square(&mut s, self.to);
        assert(s@ =~= self.notation());
        s
    }
}

/// Bit 0 of a packed move.
pub open spec fn promotion_bit(bits: u16) -> int {
    (bits % 2) as int
}

/// Bits 1 to 3 of a packed move.
pub open spec fn piece_field(bits: u16) -> int {
    ((bits / 2) % 8) as int
}

/// Bits 4 to 9 of a packed move.
pub open spec fn from_field(bits: u16) -> int {
    ((bits / 16) % 64) as int
}

/// Bits 10 to 15 of a packed move.
pub open spec fn to_field(bits: u16) -> int {
    (bits / 1024) as int
}

/// A packed move whose piece bits name a role.
pub open spec fn decodable(bits: u16) -> bool {
    is_role_code(piece_field(bits))
}

/// The move that a packed value stands for; with the promotion bit set the moving piece
/// is a pawn and the piece bits name the promotion.
pub open spec fn decode(bits: u16) -> TMove {
    if promotion_bit(bits) == 1 {
        TMove {
            role: Role::Pawn,
            promotion: Some(Role::of_code(piece_field(bits))),
            from: from_field(bits) as u8,
            to: to_field(bits) as u8,
        }
    } else {
        TMove {
            role: Role::of_code(piece_field(bits)),
            promotion: None,
            from: from_field(bits) as u8,
            to: to_field(bits) as u8,
        }
    }
}

/// The text form of a packed move.
pub fn from_bits(bits: u16) -> (s: String)
    requires
        decodable(bits),
    ensures
        s@ == decode(bits).notation(),
{
    let mut result = String::new();
    let pawn_prom: bool = (bits & 1) != 0;
    // three bits from bit 1, six bits from bit 4, six bits from bit 10
    let piece_mask: u16 = 0b0000_0000_0000_1110;
    let from_mask: u16 = 0b0000_0011_1111_0000;
    let to_mask: u16 = 0b1111_1100_0000_0000;
    assert((bits & 1) != 0 <==> bits % 2 == 1) by (bit_vector);
    assert((bits & 14) >> 1u16 == (bits / 2) % 8) by (bit_vector);
    let role = Role::from_u16((bits & piece_mask) >> 1);
    if pawn_prom {
        push_char(&mut result, 'p');
        push_char(&mut result, role.char());
    } else {
        push_char(&mut result, role.char());
        push_char(&mut result, '-');
    }
    assert((bits & 1008) >> 4u16 == (bits / 16) % 64) by (bit_vector);
    let from: u8 = ((bits & from_mask) >> 4) as u8;
    push_square(&mut result, from);
    assert((bits & 64512) >> 10u16 == bits / 1024) by (bit_vector);
    let to: u8 = ((bits & to_mask) >> 10) as u8;
    push_square(&mut result, to);
    assert(result@ =~= decode(bits).notation());
    result
}

/// The fields of a packed value are the parts it was packed from.
proof fn lemma_unpack(f: u16, p: u16, a: u16, b: u16)
    requires
        f <= 1,
        p < 8,
        a < 64,
        b < 64,
    ensures
        f + 2 * p + 16 * a + 1024 * b < 65536,
        ((f + 2 * p + 16 * a + 1024 * b) as u16) % 2 == f,
        (((f + 2 * p + 16 * a + 1024 * b) as u16) / 2) % 8 == p,
        (((f + 2 * p + 16 * a + 1024 * b) as u16) / 16) % 64 == a,
        ((f + 2 * p + 16 * a + 1024 * b) as u16) / 1024 == b,
{
    assert(f + 2 * p + 16 * a + 1024 * b < 65536 && ((f + 2 * p + 16 * a + 1024 * b) as u16) % 2
        == f && (((f + 2 * p + 16 * a + 1024 * b) as u16) / 2) % 8 == p && (((f + 2 * p + 16 * a
        + 1024 * b) as u16) / 16) % 64 == a && ((f + 2 * p + 16 * a + 1024 * b) as u16) / 1024
        == b) by (bit_vector)
        requires
            f <= 1 && p < 8 && a < 64 && b < 64,
    ;
}

/// A 16-bit value is the sum of its fields.
proof fn lemma_repack(bits: u16)
    ensures
        bits == bits % 2 + 2 * ((bits / 2) % 8) + 16 * ((bits / 16) % 64) + 1024 * (bits / 1024),
{
    assert(bits == bits % 2 + 2 * ((bits / 2) % 8) + 16 * ((bits / 16) % 64) + 1024 * (bits
        / 1024)) by (bit_vector);
}

/// Packing a move and unpacking it gives the move back, for every move on the board in
/// which only a pawn promotes.
pub proof fn lemma_decode_encode(mv: TMove)
    requires
        mv.wf(),
        mv.pawn_promotion(),
    ensures
        decodable(mv.encoded()),
        decode(mv.encoded()) == mv,
{
    let p: int = mv.piece_code();
    assert(1 <= p <= 6) by {
        match mv.promotion {
            Some(q) => crate::role::lemma_role_code_roundtrip(q),
            None => crate::role::lemma_role_code_roundtrip(mv.role),
        }
    }
    lemma_unpack(mv.promotion_flag() as u16, p as u16, mv.from as u16, mv.to as u16);
    match mv.promotion {
        Some(q) => crate::role::lemma_role_code_roundtrip(q),
        None => crate::role::lemma_role_code_roundtrip(mv.role),
    }
}

/// The packed form of every move on the board names a role in its piece bits.
pub proof fn lemma_encoded_decodable(mv: TMove)
    requires
        mv.wf(),
    ensures
        decodable(mv.encoded()),
{
    let p: int = mv.piece_code();
    assert(1 <= p <= 6) by {
        match mv.promotion {
            Some(q) => crate::role::lemma_role_code_roundtrip(q),
            None => crate::role::lemma_role_code_roundtrip(mv.role),
        }
    }
    lemma_unpack(mv.promotion_flag() as u16, p as u16, mv.from as u16, mv.to as u16);
}

/// Unpacking a value whose piece bits name a role and packing the move again gives the
/// value back.
pub proof fn lemma_encode_decode(bits: u16)
    requires
        decodable(bits),
    ensures
        decode(bits).wf(),
        decode(bits).pawn_promotion(),
        decode(bits).encoded() == bits,
{
    lemma_repack(bits);
    let mv = decode(bits);
    assert(mv.piece_code() == piece_field(bits));
    assert(mv.promotion_flag() == promotion_bit(bits));
}

/// Decoding the packed form of a move gives the text form of the move itself.
pub proof fn lemma_from_bits_of_to_bits(mv: TMove)
    requires
        mv.wf(),
        mv.pawn_promotion(),
    ensures
        decodable(mv.encoded()),
        decode(mv.encoded()).notation() == mv.notation(),
{
    lemma_decode_encode(mv);
}

/// Two moves on the board in which only pawns promote have the same packed form only if
/// they are the same move.
pub proof fn lemma_encoding_injective(a: TMove, b: TMove)
    requires
        a.wf(),
        a.pawn_promotion(),
        b.wf(),
        b.pawn_promotion(),
        a.encoded() == b.encoded(),
    ensures
        a == b,
{
    lemma_decode_encode(a);
    lemma_decode_encode(b);
}

} // verus!
