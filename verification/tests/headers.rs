use pgn2tnot::pgniterator::{
    lookup_field, BinaryParser, FieldLookup, GameError, HeaderFields, LineOutcome, RecordIterator,
};

type It = RecordIterator<(), Vec<u16>, BinaryParser>;

#[test]
fn result_codes() {
    assert_eq!(It::get_result("0-1"), 0);
    assert_eq!(It::get_result("1/2-1/2"), 1);
    assert_eq!(It::get_result("1-0"), 2);
    assert!(pgn2tnot::pgniterator::result_known("1-0"));
    assert!(!pgn2tnot::pgniterator::result_known("*"));
}

#[test]
fn field_values() {
    assert_eq!(It::extract_field_value("[WhiteElo \"1500\"]\n", "WhiteElo"), Some("1500"));
    assert_eq!(It::extract_field_value("[Result \"1/2-1/2\"]", "Result"), Some("1/2-1/2"));
    assert_eq!(It::extract_field_value("[BlackElo \"1500\"]", "WhiteElo"), None);
    assert_eq!(It::extract_field_value("[WhiteElo \"1500", "WhiteElo"), None);
    assert_eq!(It::extract_field_value("[Site \"é\"] WhiteElo \"7\"", "WhiteElo"), Some("7"));
}

#[test]
fn broken_field() {
    assert!(matches!(lookup_field("x WhiteElo", "WhiteElo"), FieldLookup::Broken));
    assert!(matches!(lookup_field("WhiteElo é", "WhiteElo"), FieldLookup::Broken));
    assert!(matches!(lookup_field("nothing", "WhiteElo"), FieldLookup::Missing));
}

#[test]
fn headers_then_movetext() {
    let mut f = HeaderFields::new();
    assert_eq!(It::scan_line(&mut f, "[Event \"Rated Blitz game\"]\n"), LineOutcome::Continue);
    assert_eq!(It::scan_line(&mut f, "[Result \"1-0\"]\n"), LineOutcome::Continue);
    assert_eq!(It::scan_line(&mut f, "[WhiteElo \"1500\"]\n"), LineOutcome::Continue);
    assert_eq!(It::scan_line(&mut f, "[BlackElo \"+1600\"]\n"), LineOutcome::Continue);
    assert_eq!(f.result, Some(2));
    assert_eq!(
        It::scan_line(&mut f, "1. e4 e5 1-0\n"),
        LineOutcome::Game { white_elo: 1500, black_elo: 1600, result: 2 }
    );
}

#[test]
fn missing_elos_are_errors() {
    let mut f = HeaderFields::new();
    let out = It::scan_line(&mut f, "1. e4 1-0\n");
    assert_eq!(out, LineOutcome::Failed(GameError::WhiteEloMissing));
    assert_eq!(GameError::WhiteEloMissing.message(), "white elo missing.");
    let mut g = HeaderFields::new();
    It::scan_line(&mut g, "[WhiteElo \"1500\"]\n");
    assert_eq!(It::scan_line(&mut g, "1. d4\n"), LineOutcome::Failed(GameError::BlackEloMissing));
    assert_eq!(GameError::BlackEloMissing.message(), "black elo missing.");
}

#[test]
fn unparsable_elo_is_forgotten() {
    let mut f = HeaderFields::new();
    It::scan_line(&mut f, "[WhiteElo \"1500\"]\n");
    It::scan_line(&mut f, "[WhiteElo \"?\"]\n");
    assert_eq!(f.white_elo, None);
    It::scan_line(&mut f, "[BlackElo \"70000\"]\n");
    assert_eq!(f.black_elo, None);
}

#[test]
fn faults_where_a_game_cannot_go_on() {
    let mut f = HeaderFields::new();
    assert_eq!(It::scan_line(&mut f, "[Result \"*\"]\n"), LineOutcome::UnknownResult);
    It::scan_line(&mut f, "[WhiteElo \"1\"]");
    It::scan_line(&mut f, "[BlackElo \"2\"]");
    assert_eq!(It::scan_line(&mut f, "1. e4\n"), LineOutcome::ResultMissing);
    assert_eq!(It::scan_line(&mut f, "WhiteElo"), LineOutcome::BrokenField);
    assert_eq!(It::scan_line(&mut f, "2. e4\n"), LineOutcome::Continue);
}
