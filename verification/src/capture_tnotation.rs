use vstd::prelude::*;
use crate::chess::{
    RawMove, fen_after, legal_game, play_san, read_move, resolve_san, resolved_move, spec_read_move,
    start_fen, start_position,
};
use crate::reading::{mainline_of, read_mainline, san_texts};
use crate::role::Role;
use crate::text::{push_char, push_square, square_name};

verus! {

/// The capture mark of a move: `x` when the move captures nothing, empty otherwise.
pub open spec fn capture_text(capture: Option<Role>) -> Seq<char> {
    if capture is None {
        seq!['x']
    } else {
        seq![]
    }
}

/// The letter of an optional role, empty when there is none.
pub open spec fn role_text(role: Option<Role>) -> Seq<char> {
    match role {
        None => seq![],
        Some(r) => seq![r.letter()],
    }
}

/// The text this notation writes for a move: piece letter, capture mark, target square,
/// origin square, promotion letter and a space.
pub open spec fn move_text(raw: RawMove) -> Seq<char> {
    seq![raw.role.letter()] + capture_text(raw.capture) + square_name(raw.to) + square_name(
        raw.from,
    ) + role_text(raw.promotion) + seq![' ']
}

/// The text written for a move is its piece letter, the capture mark, the target and the
/// origin square, then the letter of the promotion piece when there is one, and a space.
pub proof fn lemma_move_text_shape(raw: RawMove)
    ensures
        move_text(raw).last() == ' ',
        raw.promotion matches Some(p) ==> move_text(raw) == seq![raw.role.letter()]
            + capture_text(raw.capture) + square_name(raw.to) + square_name(raw.from) + seq![
            p.letter(),
            ' ',
        ],
        raw.promotion is None ==> move_text(raw) == seq![raw.role.letter()] + capture_text(
            raw.capture,
        ) + square_name(raw.to) + square_name(raw.from) + seq![' '],
        raw.capture is None ==> move_text(raw)[1] == 'x',
{
    match raw.promotion {
        Some(p) => {
            assert(move_text(raw) =~= seq![raw.role.letter()] + capture_text(raw.capture)
                + square_name(raw.to) + square_name(raw.from) + seq![p.letter(), ' ']);
        },
        None => {
            assert(move_text(raw) =~= seq![raw.role.letter()] + capture_text(raw.capture)
                + square_name(raw.to) + square_name(raw.from) + seq![' ']);
        },
    }
}

/// A game being converted to the notation with capture marks: the current position and
/// the text written so far.
pub struct TNotation {
    pos: String,
    result: String,
}

impl TNotation {
    /// The text written so far.
    pub closed spec fn output(self) -> Seq<char> {
        self.result@
    }

    /// The FEN of the current position.
    pub closed spec fn position(self) -> Seq<char> {
        self.pos@
    }

    /// A conversion at the starting position with no text yet.
    pub fn new() -> (t: TNotation)
        ensures
            t.output() == Seq::<char>::empty(),
            t.position() == start_fen(),
    {
        TNotation { pos: start_position(), result: String::new() }
    }

    /// The capture mark of a move.
    pub fn capture_notation(capture: Option<Role>) -> (s: &'static str)
        ensures
            s@ == capture_text(capture),
    {
        if capture.is_none() {
            proof {
                reveal_strlit("x");
            }
            "x"
        } else {
            proof {
                reveal_strlit("");
            }
            ""
        }
    }

    /// The letter of an optional role, empty when there is none.
    pub fn role_notation(role: Option<Role>) -> (s: String)
        ensures
            s@ == role_text(role),
    {
        let mut s = String::new();
        match role {
            None => {},
            Some(r) => push_char(&mut s, r.char()),
        }
        assert(s@ =~= role_text(role));
        s
    }

    /// Variations are skipped: only the main line is converted.
    pub fn begin_variation(&mut self) -> (skip: bool)
        ensures
            skip,
            final(self).output() == old(self).output(),
            final(self).position() == old(self).position(),
    {
        crate::reading::skip_variation()
    }

    /// Converts the next move of the main line, given as SAN text: the text of the move it
    /// denotes in the current position is appended and the move is played. `None`, and
    /// nothing changes, when it denotes no legal move there or a piece drop.
    pub fn san(&mut self, san: &str) -> (r: Option<RawMove>)
        ensures
            r == (match resolved_move(old(self).position(), san@) {
                None => None,
                Some(parts) => spec_read_move(parts),
            }),
            r is Some <==> resolved_move(old(self).position(), san@) is Some,
            r matches Some(raw) ==> raw.wf() && final(self).output() == old(self).output()
                + move_text(raw) && final(self).position() == fen_after(
                old(self).position(),
                san@,
            ),
            r is None ==> final(self).output() == old(self).output() && final(self).position()
                == old(self).position(),
    {
        let parts = match resolve_san(self.pos.as_str(), san) {
            None => return None,
            Some(p) => p,
        };
        let raw = match read_move(&parts) {
            None => return None,
            Some(raw) => raw,
        };
        let next = match play_san(self.pos.as_str(), san) {
            None => return None,
            Some(next) => next,
        };
        let ghost before = self.result@;
        let role = TNotation::role_notation(Some(raw.role));
        let capture = TNotation::capture_notation(raw.capture);
        let promotion = TNotation::role_notation(raw.promotion);
        self.result.append(role.as_str());
        self.result.append(capture);
        push_square(&mut self.result, raw.to);
        push_square(&mut self.result, raw.from);
        self.result.append(promotion.as_str());
        push_char(&mut self.result, ' ');
        assert(self.result@ =~= before + move_text(raw));
        self.pos = next;
        Some(raw)
    }

    /// The end of a game: the text written.
    pub fn end_game(&mut self) -> (s: String)
        ensures
            s@ == old(self).output(),
            final(self).output() == old(self).output(),
            final(self).position() == old(self).position(),
    {
        self.result.clone()
    }
}

/// The text of the moves `sans` (SAN texts) in the notation with capture marks, played in
/// turn from the position `fen`; `None` when one of them is not legal in its position.
pub open spec fn capture_game(fen: Seq<char>, sans: Seq<Seq<char>>) -> Option<Seq<char>>
    decreases sans.len(),
{
    if sans.len() == 0 {
        Some(seq![])
    } else {
        match resolved_move(fen, sans[0]) {
            None => None,
            Some(parts) => match spec_read_move(parts) {
                None => None,
                Some(raw) => match capture_game(fen_after(fen, sans[0]), sans.drop_first()) {
                    None => None,
                    Some(rest) => Some(move_text(raw) + rest),
                },
            },
        }
    }
}

/// The text written so far, `done`, followed by the text of the remaining moves from the
/// current position, gives the text of the whole game; the game is legal exactly when
/// the remaining moves are.
pub open spec fn capture_so_far(
    all: Seq<Seq<char>>,
    done: Seq<char>,
    fen: Seq<char>,
    i: int,
) -> bool {
    &&& capture_game(start_fen(), all) == match capture_game(fen, all.skip(i)) {
        None => None,
        Some(rest) => Some(done + rest),
    }
    &&& legal_game(start_fen(), all) == legal_game(fen, all.skip(i))
}

/// The moves `sans` (SAN texts) in the notation with capture marks, played in turn from
/// the starting position; `None` exactly when one of them is not legal in its position.
pub fn capture_game_text(sans: &Vec<String>) -> (r: Option<String>)
    ensures
        r is Some <==> legal_game(start_fen(), san_texts(sans@)),
        r matches Some(text) ==> capture_game(start_fen(), san_texts(sans@)) == Some(text@),
        r is None ==> capture_game(start_fen(), san_texts(sans@)) is None,
{
    let ghost all = san_texts(sans@);
    let mut t = TNotation::new();
    let mut i: usize = 0;
    assert(all.skip(0) =~= all);
    assert(t.output() + seq![] =~= t.output());
    while i < sans.len()
        invariant
            all == san_texts(sans@),
            i <= sans@.len(),
            capture_so_far(all, t.output(), t.position(), i as int),
        decreases sans@.len() - i,
    {
        let ghost pos = t.position();
        let ghost before = t.output();
        let ghost rest = all.skip(i as int);
        assert(rest[0] == all[i as int]);
        assert(rest.drop_first() =~= all.skip(i + 1));
        let r = t.san(sans[i].as_str());
        match r {
            None => return None,
            Some(raw) => {
                proof {
                    match capture_game(fen_after(pos, all[i as int]), all.skip(i + 1)) {
                        None => {},
                        Some(tail) => {
                            assert(before + (move_text(raw) + tail) =~= t.output() + tail);
                        },
                    }
                }
            },
        }
        i = i + 1;
    }
    assert(all.skip(i as int) =~= Seq::<Seq<char>>::empty());
    assert(t.output() + seq![] =~= t.output());
    Some(t.end_game())
}

/// The main line of the first game of the PGN text `pgn_data` in the notation with
/// capture marks; `None` when the text cannot be read, holds no game, or a move is not
/// legal in its position.
pub fn to_tnotation(pgn_data: &str) -> (r: Option<String>)
    ensures
        r matches Some(text) ==> mainline_of(pgn_data@) matches Some(Some(sans)) && capture_game(
            start_fen(),
            sans,
        ) == Some(text@),
        r is None <==> !(mainline_of(pgn_data@) matches Some(Some(sans)) && legal_game(
            start_fen(),
            sans,
        )),
{
    match read_mainline(pgn_data) {
        Some(Some(sans)) => capture_game_text(&sans),
        _ => None,
    }
}

} // verus!
