use vstd::prelude::*;
use pgn_reader::{BufferedReader, SanPlus, Skip, Visitor};

verus! {

#[verifier::external_type_specification]
#[verifier::external_body]
pub struct ExSanPlus(SanPlus);

#[verifier::external_type_specification]
#[verifier::external_body]
pub struct ExSkip(Skip);

/// The SAN texts of a list of moves.
pub open spec fn san_texts(sans: Seq<String>) -> Seq<Seq<char>> {
    sans.map_values(|s: String| s@)
}

/// What `BufferedReader::read_game` of pgn-reader reads from the PGN text `pgn`, keeping
/// the SAN text of each move of the main line (variations skipped): `None` when the
/// reader reports an error, `Some(None)` when the text holds no game, and otherwise the
/// moves of the first game.
pub uninterp spec fn mainline_of(pgn: Seq<char>) -> Option<Option<Seq<Seq<char>>>>;

/// The main-line moves of the first game of `pgn`, a text without a game giving no
/// moves; `None` when the reader reports an error.
pub open spec fn mainline_moves(pgn: Seq<char>) -> Option<Seq<Seq<char>>> {
    match mainline_of(pgn) {
        None => None,
        Some(None) => Some(seq![]),
        Some(Some(sans)) => Some(sans),
    }
}

/// Variations are skipped: only the main line of a game is read.
pub fn skip_variation() -> (skip: bool)
    ensures
        skip,
{
    true
}

/// Collects the SAN text of each move of the main line of a game.
struct SanCollector {
    sans: Vec<String>,
}

impl Visitor for SanCollector {
    type Result = ();

    #[verifier::external_body]
    fn begin_variation(&mut self) -> Skip {
        Skip(skip_variation())
    }

    #[verifier::external_body]
    fn san(&mut self, san_plus: SanPlus) {
        self.sans.push(san_plus.san.to_string());
    }

    #[verifier::external_body]
    fn end_game(&mut self) {
    }
}

/// `BufferedReader::read_game` of pgn-reader on the text `pgn`, with a visitor that skips
/// variations and keeps the SAN text (`San`'s `Display`) of each main-line move. The
/// result is named: `None` on a reader error, `Some(None)` when there is no game.
#[verifier::external_body]
pub(crate) fn read_mainline(pgn: &str) -> (r: Option<Option<Vec<String>>>)
    ensures
        mainline_of(pgn@) == (match r {
            None => None,
            Some(None) => Some(None),
            Some(Some(v)) => Some(Some(san_texts(v@))),
        }),
{
    let mut collector = SanCollector { sans: Vec::new() };
    let game = BufferedReader::new_cursor(pgn).read_game(&mut collector).ok()?;
    Some(game.map(|_| collector.sans))
}

/// The main-line moves of the first game of `pgn`, as SAN texts; a text without a game
/// gives no moves. `None` when the reader reports an error.
pub fn mainline_sans(pgn: &str) -> (r: Option<Vec<String>>)
    ensures
        r is None <==> mainline_moves(pgn@) is None,
        r matches Some(v) ==> mainline_moves(pgn@) == Some(san_texts(v@)),
{
    match read_mainline(pgn) {
        None => None,
        Some(None) => {
            let v: Vec<String> = Vec::new();
            assert(san_texts(v@) =~= seq![]);
            Some(v)
        },
        Some(Some(v)) => Some(v),
    }
}

} // verus!
