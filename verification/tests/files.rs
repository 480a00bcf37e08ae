use pgn2tnot::filenamechunker::{change_file_name, FileNameChunker};
use pgn2tnot::filenameiterator::FileNameIterator;

#[test]
fn file_name_change_keeps_extension() {
    assert_eq!(change_file_name("a/b.pgn", "c"), "a/c.pgn");
    assert_eq!(change_file_name("games", "x"), "x");
    assert_eq!(change_file_name("/data/lichess.tnot", "lichess-(3)"), "/data/lichess-(3).tnot");
}

#[test]
fn chunks_are_numbered_from_one() {
    let mut c = FileNameChunker::new(vec![10, 20].into_iter(), "/data/games.tnot");
    assert!(c.has_stem());
    assert_eq!(c.count(), 0);
    let first = c.iterator_mut().next();
    assert_eq!(c.next_chunk(first), Some((10, String::from("/data/games-(1).tnot"))));
    let second = c.iterator_mut().next();
    assert_eq!(c.next_chunk(second), Some((20, String::from("/data/games-(2).tnot"))));
    let third = c.iterator_mut().next();
    assert_eq!(c.next_chunk(third), None);
    assert_eq!(c.count(), 2);
}

#[test]
fn no_stem_is_reported() {
    let c = FileNameChunker::new(Vec::<u8>::new().into_iter(), "/");
    assert!(!c.has_stem());
}

#[test]
fn extension_filter() {
    let all = FileNameIterator::new("../data");
    assert!(all.has_matching_extension(None));
    assert!(all.has_matching_extension(Some("zst")));
    let pgn = all.has_extension("pgn");
    assert_eq!(pgn.directory, "../data");
    assert!(pgn.has_matching_extension(Some("pgn")));
    assert!(!pgn.has_matching_extension(Some("zst")));
    assert!(!pgn.has_matching_extension(None));
}
