use pgn2tnot::encoding::{castle_position, from_bits, CastlingSide, SanKind, TMove};
use pgn2tnot::role::Role;
use pgn2tnot::text::{push_decimal, push_square};

fn mv(role: Role, promotion: Option<Role>, from: u8, to: u8) -> TMove {
    TMove { role, promotion, from, to }
}

#[test]
fn role_letters() {
    assert_eq!(Role::Rook.char(), 'r');
    assert_eq!(Role::to_char(None), '-');
    assert_eq!(Role::to_char(Some(Role::Knight)), 'n');
    assert_eq!(Role::to_string(Some(Role::King)), "k");
    assert_eq!(Role::to_string(None), "-");
}

#[test]
fn role_codes() {
    assert_eq!(Role::Pawn.to_u16(), 1);
    assert_eq!(Role::King.to_u16(), 6);
    assert_eq!(Role::from_u16(3), Role::Bishop);
    assert_eq!(Role::from_u16(5), Role::Queen);
}

#[test]
fn square_names_and_numbers() {
    let mut s = String::new();
    push_square(&mut s, 0);
    push_square(&mut s, 63);
    push_square(&mut s, 28);
    assert_eq!(s, "a1h8e4");
    let mut d = String::from("n=");
    push_decimal(&mut d, 0);
    push_decimal(&mut d, 1234);
    assert_eq!(d, "n=01234");
}

#[test]
fn pawn_move_packs_and_prints() {
    let m = mv(Role::Pawn, None, 12, 28);
    assert_eq!(m.to_bits(), 2 + 12 * 16 + 28 * 1024);
    assert_eq!(m.to_bits(), 28866);
    assert_eq!(m.notation_string(), "p-e2e4");
    assert_eq!(from_bits(28866), "p-e2e4");
}

#[test]
fn promotion_packs_and_prints() {
    let m = mv(Role::Pawn, Some(Role::Queen), 52, 60);
    assert_eq!(m.to_bits(), 62283);
    assert_eq!(m.to_bits() & 1, 1);
    assert_eq!(m.notation_string(), "pqe7e8");
    assert_eq!(from_bits(62283), "pqe7e8");
}

#[test]
fn decoding_the_packed_form_gives_the_notation() {
    let moves = [
        mv(Role::Knight, None, 6, 21),
        mv(Role::King, None, 60, 62),
        mv(Role::Pawn, Some(Role::Knight), 8, 0),
        mv(Role::Queen, None, 63, 0),
        mv(Role::Pawn, Some(Role::Rook), 55, 63),
    ];
    for m in moves.iter() {
        assert_eq!(from_bits(m.to_bits()), m.notation_string());
    }
}

#[test]
fn packed_layout_fields() {
    let m = mv(Role::Bishop, None, 5, 40);
    let b = m.to_bits();
    assert_eq!(b & 1, 0);
    assert_eq!((b >> 1) & 7, 3);
    assert_eq!((b >> 4) & 63, 5);
    assert_eq!(b >> 10, 40);
}

#[test]
fn castling_targets() {
    let k = SanKind::Castle(CastlingSide::KingSide);
    let q = SanKind::Castle(CastlingSide::QueenSide);
    assert_eq!(castle_position(k, 4, 7), 6);
    assert_eq!(castle_position(q, 4, 0), 2);
    assert_eq!(castle_position(k, 60, 63), 62);
    assert_eq!(castle_position(q, 60, 56), 58);
    assert_eq!(castle_position(SanKind::Normal, 12, 28), 28);
}

#[test]
fn castling_move_notation() {
    let m = mv(Role::King, None, 4, castle_position(SanKind::Castle(CastlingSide::KingSide), 4, 7));
    assert_eq!(m.notation_string(), "k-e1g1");
    assert_eq!(m.to_bits(), 12 + 64 + 6 * 1024);
}

#[test]
fn distinct_moves_pack_differently() {
    let mut seen = std::collections::HashSet::new();
    let roles = [Role::Pawn, Role::Knight, Role::Bishop, Role::Rook, Role::Queen, Role::King];
    for role in roles.iter() {
        for from in [0u8, 9, 63].iter() {
            for to in [0u8, 17, 63].iter() {
                assert!(seen.insert(mv(*role, None, *from, *to).to_bits()));
            }
        }
    }
    for p in [Role::Knight, Role::Queen].iter() {
        assert!(seen.insert(mv(Role::Pawn, Some(*p), 9, 17).to_bits()));
    }
    assert_eq!(seen.len(), 6 * 9 + 2);
}
