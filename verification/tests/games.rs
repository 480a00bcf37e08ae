use pgn2tnot::capture_tnotation;
use pgn2tnot::disambiguation::TNotation;
use pgn2tnot::pgniterator::{
    binary_record_bytes, packed_game, text_game, BinaryParser, Record, StringParser, TNotationParse,
};
use pgn2tnot::reading::mainline_sans;
use pgn2tnot::chess::{raw_move, read_move, start_position, MoveParts, RawMove};
use pgn2tnot::disambiguation::{tmove_from, tmove_of};
use pgn2tnot::encoding::{CastlingSide, SanKind, TMove};
use pgn2tnot::role::Role;

fn sans(moves: &[&str]) -> Vec<String> {
    moves.iter().map(|m| m.to_string()).collect()
}

fn pgn(moves: &[&str]) -> String {
    let mut text = String::new();
    for (i, m) in moves.iter().enumerate() {
        if i % 2 == 0 {
            text.push_str(&format!("{}. ", i / 2 + 1));
        }
        text.push_str(m);
        text.push(' ');
    }
    text.push('*');
    text
}

#[test]
fn binary_parser_packs_each_move() {
    let rec = BinaryParser.parse(&pgn(&["e4", "e5", "Nf3"]), 1500, 1600, 2).unwrap();
    assert_eq!(rec.data, vec![28866, 37698, 21604]);
    assert_eq!(rec.white_elo, 1500);
    assert_eq!(rec.black_elo, 1600);
    assert_eq!(rec.result, 2);
}

#[test]
fn string_parser_writes_each_move() {
    let rec = StringParser.parse(&pgn(&["e4", "e5", "Nf3"]), 1, 2, 1).unwrap();
    assert_eq!(rec.data, "p-e2e4 p-e7e5 n-g1f3 ");
    assert_eq!(rec.result, 1);
}

#[test]
fn castling_is_written_with_the_king_square() {
    let game = ["e4", "e5", "Nf3", "Nc6", "Bc4", "Bc5", "O-O"];
    let rec = StringParser.parse(&pgn(&game), 0, 0, 0).unwrap();
    assert!(rec.data.ends_with("k-e1g1 "));
}

#[test]
fn promotion_is_written_with_the_piece() {
    let game = ["b4", "a5", "bxa5", "b6", "axb6", "Nc6", "b7", "Rb8", "bxc8=Q"];
    let rec = StringParser.parse(&pgn(&game), 0, 0, 0).unwrap();
    assert!(rec.data.ends_with("pqb7c8 "));
    let bin = BinaryParser.parse(&pgn(&game), 0, 0, 0).unwrap();
    assert_eq!(pgn2tnot::encoding::from_bits(*bin.data.last().unwrap()), "pqb7c8");
}

#[test]
fn illegal_move_is_refused() {
    assert!(BinaryParser.parse(&pgn(&["e5"]), 0, 0, 0).is_none());
    assert!(StringParser.parse(&pgn(&["e4", "e4"]), 0, 0, 0).is_none());
}

#[test]
fn conversion_state_step_by_step() {
    let mut t = TNotation::new(String::new());
    assert!(t.begin_variation());
    let first = t.san("d4").unwrap();
    assert_eq!(first.from, 11);
    assert_eq!(first.to, 27);
    assert!(t.san("Qd5").is_none());
    assert!(t.end_game());
    assert_eq!(t.consume(), "p-d2d4 ");
}

#[test]
fn capture_notation_marks() {
    let mut t = capture_tnotation::TNotation::new();
    t.san("e4").unwrap();
    t.san("d5").unwrap();
    t.san("exd5").unwrap();
    assert!(t.san("Ke3").is_none());
    assert_eq!(t.end_game(), "pxe4e2 pxd5d7 pd5e4 ");
    assert_eq!(capture_tnotation::TNotation::capture_notation(None), "x");
    assert_eq!(capture_tnotation::TNotation::role_notation(None), "");
}

#[test]
fn binary_record_layout() {
    let rec = Record { data: vec![28866u16], white_elo: 1500, black_elo: 1600, result: 2 };
    assert_eq!(
        binary_record_bytes(&rec),
        vec![2, 0, 0xdc, 0x05, 0x40, 0x06, 1, 0, 0xc2, 0x70]
    );
    let empty = Record { data: Vec::new(), white_elo: 0, black_elo: 65535, result: 0 };
    assert_eq!(binary_record_bytes(&empty), vec![0, 0, 0, 0, 0xff, 0xff, 0, 0]);
}

#[test]
fn binary_record_length_wraps() {
    let rec = Record { data: vec![1u16; 65537], white_elo: 0, black_elo: 0, result: 1 };
    let bytes = binary_record_bytes(&rec);
    assert_eq!(bytes.len(), 8 + 2 * 65537);
    assert_eq!(&bytes[6..8], &[1, 0]);
}

#[test]
fn text_and_packed_forms_agree() {
    let game = ["d4", "d5", "c4", "dxc4", "e3", "b5", "a4", "c6", "axb5", "cxb5", "Qf3", "Nc6"];
    let text = StringParser.parse(&pgn(&game), 0, 0, 0).unwrap().data;
    let packed = BinaryParser.parse(&pgn(&game), 0, 0, 0).unwrap().data;
    let mut decoded = String::new();
    for bits in packed.iter() {
        decoded.push_str(&pgn2tnot::encoding::from_bits(*bits));
        decoded.push(' ');
    }
    assert_eq!(decoded, text);
}

#[test]
fn empty_games_convert_to_nothing() {
    let bin = BinaryParser.parse("", 1, 2, 1).unwrap();
    assert!(bin.data.is_empty());
    assert_eq!(bin.white_elo, 1);
    let text = StringParser.parse("", 1, 2, 1).unwrap();
    assert_eq!(text.data, "");
}

#[test]
fn reading_and_recording_moves() {
    let raw = raw_move(1, Some(12), 28, None, Some(5)).unwrap();
    assert_eq!(raw, RawMove { role: Role::Pawn, from: 12, to: 28, capture: None, promotion: Some(Role::Queen) });
    assert_eq!(raw_move(2, None, 28, Some(3), None), None);
    let king = RawMove { role: Role::King, from: 4, to: 7, capture: None, promotion: None };
    let castle = SanKind::Castle(CastlingSide::KingSide);
    assert_eq!(tmove_of(king, castle), Some(TMove { role: Role::King, promotion: None, from: 4, to: 6 }));
    assert_eq!(tmove_of(RawMove { from: 5, ..king }, castle), None);
    assert_eq!(tmove_of(king, SanKind::Put), None);

    let parts = MoveParts { role: 1, from: Some(52), to: 60, capture: Some(2), promotion: Some(5) };
    assert_eq!(
        read_move(&parts),
        Some(RawMove { role: Role::Pawn, from: 52, to: 60, capture: Some(Role::Knight), promotion: Some(Role::Queen) })
    );
    assert_eq!(read_move(&MoveParts { from: None, ..parts }), None);
    assert_eq!(
        tmove_from(&parts, Some(SanKind::Normal)),
        Some(TMove { role: Role::Pawn, promotion: Some(Role::Queen), from: 52, to: 60 })
    );
    assert_eq!(tmove_from(&parts, None), None);
    let castling = MoveParts { role: 6, from: Some(60), to: 56, capture: None, promotion: None };
    assert_eq!(
        tmove_from(&castling, Some(SanKind::Castle(CastlingSide::QueenSide))),
        Some(TMove { role: Role::King, promotion: None, from: 60, to: 58 })
    );
}

#[test]
fn starting_position_is_the_standard_one() {
    let fen = shakmaty::fen::Fen::from_position(shakmaty::Chess::default(), shakmaty::EnPassantMode::Legal);
    assert_eq!(start_position(), fen.to_string());
}

#[test]
fn unparsable_or_drop_moves_are_refused() {
    assert!(text_game(&sans(&["e4", "zz"])).is_none());
    assert!(text_game(&sans(&["Q@e4"])).is_none());
    assert!(text_game(&sans(&["--"])).is_none());
    assert!(packed_game(&sans(&["--"])).is_none());
    let mut t = TNotation::new(Vec::new());
    assert!(t.san("e4").is_some());
    assert!(t.san("e4").is_none());
    assert!(t.san("c5").is_some());
    assert_eq!(t.consume().len(), 2);
}

#[test]
fn en_passant_and_check_suffix() {
    let game = ["e4", "a6", "e5", "d5", "exd6", "Qxd6", "Bb5+", "axb5"];
    let rec = StringParser.parse(&pgn(&game), 0, 0, 0).unwrap();
    assert_eq!(rec.data, "p-e2e4 p-a7a6 p-e4e5 p-d7d5 p-e5d6 q-d8d6 b-f1b5 p-a6b5 ");
}

#[test]
fn parsers_read_the_pgn_text() {
    let text = "[Event \"Casual\"]\n[Result \"1-0\"]\n\n1. e4 {best by test} e5 (1... c5 2. Nf3) 2. Nf3 $1 1-0\n";
    let rec = StringParser.parse(text, 10, 20, 2).unwrap();
    assert_eq!(rec.data, "p-e2e4 p-e7e5 n-g1f3 ");
    let bin = BinaryParser.parse(text, 10, 20, 2).unwrap();
    assert_eq!(bin.data, vec![28866, 37698, 21604]);
    assert_eq!(mainline_sans(text).unwrap(), sans(&["e4", "e5", "Nf3"]));
}

#[test]
fn packed_and_text_games_from_moves() {
    assert_eq!(packed_game(&sans(&["e4", "e5", "Nf3"])).unwrap(), vec![28866, 37698, 21604]);
    assert_eq!(text_game(&sans(&["d4"])).unwrap(), "p-d2d4 ");
    assert!(packed_game(&sans(&["e4", "Ke7", "Ke2", "Ke8", "Kd3", "O-O"])).is_none());
}

#[test]
fn capture_notation_of_a_pgn_text() {
    let text = pgn(&["e4", "d5", "exd5", "Qxd5"]);
    assert_eq!(
        capture_tnotation::to_tnotation(&text).unwrap(),
        "pxe4e2 pxd5d7 pd5e4 qd5d8 "
    );
    assert_eq!(capture_tnotation::to_tnotation(""), None);
    assert_eq!(capture_tnotation::to_tnotation("1. e5 *"), None);
    assert_eq!(capture_tnotation::to_tnotation("*").unwrap(), "");
    assert_eq!(
        capture_tnotation::capture_game_text(&sans(&["Nf3"])).unwrap(),
        "nxf3g1 "
    );
    assert!(capture_tnotation::capture_game_text(&sans(&["Nf4"])).is_none());
}
