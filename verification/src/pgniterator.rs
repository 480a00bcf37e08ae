use vstd::prelude::*;
use vstd::string::StringSliceAdditionalSpecFns;
use vstd::utf8::{is_char_boundary, decode_utf8};
use std::marker::PhantomData;
use crate::chess::{fen_after, legal_game, resolved_move, start_fen};
use crate::disambiguation::spec_convert;
use crate::text::{find, find_bytes, same_text, spec_parse_u16, parse_u16, occurs_at};
use crate::disambiguation::TNotation;
use crate::reading::{mainline_moves, mainline_sans, san_texts};
use crate::encoding::{TMove, decodable, decode};

verus! {

/// One game: its converted moves and the header values that go with them.
pub struct Record<T> {
    pub data: T,
    pub white_elo: u16,
    pub black_elo: u16,
    /// 0 black wins, 1 draw, 2 white wins.
    pub result: u16,
}

/// A game converted to packed moves.
pub type BinaryRecord = Record<Vec<u16>>;

/// A game converted to text.
pub type StringRecord = Record<String>;

/// The two little-endian bytes of a 16-bit value.
pub open spec fn le_bytes(v: u16) -> Seq<u8> {
    seq![(v % 256) as u8, (v / 256) as u8]
}

/// The little-endian bytes of a sequence of 16-bit values, one value after the other.
pub open spec fn le_bytes_all(s: Seq<u16>) -> Seq<u8>
    decreases s.len(),
{
    if s.len() == 0 {
        seq![]
    } else {
        le_bytes_all(s.drop_last()) + le_bytes(s.last())
    }
}

/// The binary form of a record: result, white elo, black elo, the number of moves (kept
/// to 16 bits, so it wraps past 65535) and the packed moves, each as two little-endian
/// bytes.
pub open spec fn binary_record_layout(record: BinaryRecord) -> Seq<u8> {
    le_bytes(record.result) + le_bytes(record.white_elo) + le_bytes(record.black_elo) + le_bytes(
        (record.data@.len() % 65536) as u16,
    ) + le_bytes_all(record.data@)
}

/// The little-endian bytes of a sequence of values hold value `i` at bytes `2i` (low) and
/// `2i + 1` (high).
proof fn lemma_le_bytes_all(s: Seq<u16>)
    ensures
        le_bytes_all(s).len() == 2 * s.len(),
        forall|i: int| 0 <= i < s.len() ==> le_bytes_all(s)[2 * i] == #[trigger] s[i] % 256
            && le_bytes_all(s)[2 * i + 1] == s[i] / 256,
    decreases s.len(),
{
    if s.len() > 0 {
        let p = s.drop_last();
        lemma_le_bytes_all(p);
        assert forall|i: int| 0 <= i < s.len() implies le_bytes_all(s)[2 * i] == #[trigger] s[i]
            % 256 && le_bytes_all(s)[2 * i + 1] == s[i] / 256 by {
            if i < p.len() {
                assert(p[i] == s[i]);
            }
        }
    }
}

/// A binary record starts with the result, the white elo, the black elo and the number
/// of moves, each low byte first, and then holds move `i` of the game, low byte first, at
/// bytes `8 + 2i` and `9 + 2i`: the moves are written in the order of the game.
pub proof fn lemma_binary_record_layout(record: BinaryRecord)
    ensures
        binary_record_layout(record).len() == 8 + 2 * record.data@.len(),
        binary_record_layout(record)[0] == record.result % 256,
        binary_record_layout(record)[1] == record.result / 256,
        binary_record_layout(record)[2] == record.white_elo % 256,
        binary_record_layout(record)[3] == record.white_elo / 256,
        binary_record_layout(record)[4] == record.black_elo % 256,
        binary_record_layout(record)[5] == record.black_elo / 256,
        binary_record_layout(record)[6] == record.data@.len() % 256,
        binary_record_layout(record)[7] == (record.data@.len() % 65536) / 256,
        forall|i: int| 0 <= i < record.data@.len() ==> binary_record_layout(record)[8 + 2 * i]
            == #[trigger] record.data@[i] % 256 && binary_record_layout(record)[9 + 2 * i]
            == record.data@[i] / 256,
{
    lemma_le_bytes_all(record.data@);
    let b = binary_record_layout(record);
    let all = le_bytes_all(record.data@);
    assert forall|i: int| 0 <= i < record.data@.len() implies b[8 + 2 * i]
        == #[trigger] record.data@[i] % 256 && b[9 + 2 * i] == record.data@[i] / 256 by {
        assert(b[8 + 2 * i] == all[2 * i]);
        assert(b[9 + 2 * i] == all[2 * i + 1]);
    }
}

/// Appends the two little-endian bytes of `v`.
fn push_le(out: &mut Vec<u8>, v: u16)
    ensures
        final(out)@ == old(out)@ + le_bytes(v),
{
    let ghost before = out@;
    out.push((v % 256) as u8);
    out.push((v / 256) as u8);
    assert(out@ =~= before + le_bytes(v));
}

/// The bytes that a binary record is written as.
pub fn binary_record_bytes(record: &BinaryRecord) -> (bytes: Vec<u8>)
    ensures
        bytes@ == binary_record_layout(*record),
        bytes@.len() == 8 + 2 * record.data@.len(),
        forall|i: int| 0 <= i < record.data@.len() ==> bytes@[8 + 2 * i] == #[trigger] record.data@[i]
            % 256 && bytes@[9 + 2 * i] == record.data@[i] / 256,
{
    proof {
        lemma_binary_record_layout(*record);
    }
    let mut out: Vec<u8> = Vec::new();
    push_le(&mut out, record.result);
    push_le(&mut out, record.white_elo);
    push_le(&mut out, record.black_elo);
    let data_len: u16 = (record.data.len() % 65536) as u16;
    push_le(&mut out, data_len);
    let ghost head = out@;
    let mut i: usize = 0;
    while i < record.data.len()
        invariant
            i <= record.data@.len(),
            out@ == head + le_bytes_all(record.data@.subrange(0, i as int)),
            le_bytes_all(record.data@.subrange(0, i as int)).len() == 2 * i,
        decreases record.data@.len() - i,
    {
        let ghost prefix = record.data@.subrange(0, i as int);
        push_le(&mut out, record.data[i]);
        assert(record.data@.subrange(0, i + 1).drop_last() =~= prefix);
        assert(out@ =~= head + le_bytes_all(record.data@.subrange(0, i + 1)));
        i = i + 1;
    }
    assert(record.data@.subrange(0, i as int) =~= record.data@);
    out
}

/// The packed forms of `mvs`, in order.
pub open spec fn packed(mvs: Seq<TMove>) -> Seq<u16> {
    mvs.map_values(|m: TMove| m.encoded())
}

/// The T-notation of the moves `sans`, played in turn from the position `fen`; `None`
/// when one of them is not a legal move in its position.
pub open spec fn game_moves(fen: Seq<char>, sans: Seq<Seq<char>>) -> Option<Seq<TMove>>
    decreases sans.len(),
{
    if sans.len() == 0 {
        Some(seq![])
    } else {
        match spec_convert(fen, sans[0]) {
            None => None,
            Some(mv) => match game_moves(fen_after(fen, sans[0]), sans.drop_first()) {
                None => None,
                Some(rest) => Some(seq![mv] + rest),
            },
        }
    }
}

/// Every move is on the board and only pawns promote.
pub open spec fn all_wf(mvs: Seq<TMove>) -> bool {
    forall|i: int| 0 <= i < mvs.len() ==> (#[trigger] mvs[i]).wf() && mvs[i].pawn_promotion()
}

/// The moves converted so far, `done`, followed by the conversion of the remaining moves
/// from the current position, give the conversion of the whole game.
pub open spec fn game_so_far(
    all: Seq<Seq<char>>,
    done: Seq<TMove>,
    fen: Seq<char>,
    i: int,
) -> bool {
    &&& game_moves(start_fen(), all) == match game_moves(fen, all.skip(i)) {
        None => None,
        Some(rest) => Some(done + rest),
    }
    &&& legal_game(start_fen(), all) == legal_game(fen, all.skip(i))
}

/// One more move converted keeps `game_so_far`.
proof fn lemma_game_step(
    all: Seq<Seq<char>>,
    done: Seq<TMove>,
    fen: Seq<char>,
    i: int,
    mv: Option<TMove>,
)
    requires
        0 <= i < all.len(),
        game_so_far(all, done, fen, i),
        mv == spec_convert(fen, all[i]),
        mv is Some <==> resolved_move(fen, all[i]) is Some,
    ensures
        mv is None ==> game_moves(start_fen(), all) is None && !legal_game(start_fen(), all),
        mv matches Some(m) ==> game_so_far(all, done.push(m), fen_after(fen, all[i]), i + 1),
{
    let rest = all.skip(i);
    assert(rest[0] == all[i]);
    assert(rest.drop_first() =~= all.skip(i + 1));
    match mv {
        None => {},
        Some(m) => match game_moves(fen_after(fen, all[i]), all.skip(i + 1)) {
            None => {},
            Some(tail) => {
                assert(done + (seq![m] + tail) =~= done.push(m) + tail);
            },
        },
    }
}

/// The text form of a sequence of moves: each move's notation followed by a space.
pub open spec fn game_text(mvs: Seq<TMove>) -> Seq<char>
    decreases mvs.len(),
{
    if mvs.len() == 0 {
        seq![]
    } else {
        game_text(mvs.drop_last()) + mvs.last().notation() + seq![' ']
    }
}

/// Decoding the packed form of every move of a game gives the same text as the game's
/// own moves, for every game on the board in which only pawns promote: the text and the
/// packed conversion of a game agree move for move.
pub proof fn lemma_game_text_of_packed(mvs: Seq<TMove>)
    requires
        forall|i: int| 0 <= i < mvs.len() ==> (#[trigger] mvs[i]).wf() && mvs[i].pawn_promotion(),
    ensures
        forall|i: int| 0 <= i < mvs.len() ==> decodable((#[trigger] mvs[i]).encoded()),
        game_text(mvs) == game_text(mvs.map_values(|m: TMove| decode(m.encoded()))),
{
    let decoded = mvs.map_values(|m: TMove| decode(m.encoded()));
    assert forall|i: int| 0 <= i < mvs.len() implies decodable((#[trigger] mvs[i]).encoded())
        && decoded[i] == mvs[i] by {
        crate::encoding::lemma_decode_encode(mvs[i]);
    }
    assert(decoded =~= mvs);
}

/// The packed forms of the moves `sans` (SAN texts), played in turn from the starting
/// position; `None` exactly when one of them is not legal in its position.
pub fn packed_game(sans: &Vec<String>) -> (r: Option<Vec<u16>>)
    ensures
        r is Some <==> game_moves(start_fen(), san_texts(sans@)) is Some,
        r is Some <==> legal_game(start_fen(), san_texts(sans@)),
        r matches Some(data) ==> data@ == packed(game_moves(start_fen(), san_texts(sans@))->0),
        game_moves(start_fen(), san_texts(sans@)) matches Some(mvs) ==> all_wf(mvs),
{
    let ghost all = san_texts(sans@);
    let mut t: TNotation<Vec<u16>> = TNotation::new(Vec::new());
    let ghost mut mvs: Seq<TMove> = seq![];
    let mut i: usize = 0;
    assert(all.skip(0) =~= all);
    assert(mvs + seq![] =~= mvs);
    while i < sans.len()
        invariant
            all == san_texts(sans@),
            i <= sans@.len(),
            game_so_far(all, mvs, t.position(), i as int),
            t.output()@ == packed(mvs),
            all_wf(mvs),
        decreases sans@.len() - i,
    {
        let ghost pos = t.position();
        let r = t.san(sans[i].as_str());
        proof {
            lemma_game_step(all, mvs, pos, i as int, r);
        }
        match r {
            None => return None,
            Some(mv) => {
                proof {
                    assert(packed(mvs.push(mv)) =~= packed(mvs).push(mv.encoded()));
                    mvs = mvs.push(mv);
                }
            },
        }
        i = i + 1;
    }
    assert(all.skip(i as int) =~= Seq::<Seq<char>>::empty());
    assert(mvs + seq![] =~= mvs);
    Some(t.consume())
}

/// The text of the moves `sans` (SAN texts), played in turn from the starting position;
/// `None` exactly when one of them is not legal in its position.
pub fn text_game(sans: &Vec<String>) -> (r: Option<String>)
    ensures
        r is Some <==> game_moves(start_fen(), san_texts(sans@)) is Some,
        r is Some <==> legal_game(start_fen(), san_texts(sans@)),
        r matches Some(data) ==> data@ == game_text(game_moves(start_fen(), san_texts(sans@))->0),
        game_moves(start_fen(), san_texts(sans@)) matches Some(mvs) ==> all_wf(mvs),
{
    let ghost all = san_texts(sans@);
    let mut t: TNotation<String> = TNotation::new(String::new());
    let ghost mut mvs: Seq<TMove> = seq![];
    let mut i: usize = 0;
    assert(all.skip(0) =~= all);
    assert(mvs + seq![] =~= mvs);
    while i < sans.len()
        invariant
            all == san_texts(sans@),
            i <= sans@.len(),
            game_so_far(all, mvs, t.position(), i as int),
            t.output()@ == game_text(mvs),
            all_wf(mvs),
        decreases sans@.len() - i,
    {
        let ghost pos = t.position();
        let r = t.san(sans[i].as_str());
        proof {
            lemma_game_step(all, mvs, pos, i as int, r);
        }
        match r {
            None => return None,
            Some(mv) => {
                proof {
                    let old_mvs = mvs;
                    mvs = mvs.push(mv);
                    assert(mvs.drop_last() =~= old_mvs);
                }
            },
        }
        i = i + 1;
    }
    assert(all.skip(i as int) =~= Seq::<Seq<char>>::empty());
    assert(mvs + seq![] =~= mvs);
    Some(t.consume())
}

/// Whether the PGN text `pgn` converts: the reader reads it and every main-line move of
/// its first game is legal in turn from the starting position.
pub open spec fn converts(pgn: Seq<char>) -> bool {
    mainline_moves(pgn) matches Some(sans) && game_moves(start_fen(), sans) is Some
}

/// The moves of the main line of the first game of `pgn`, when it converts.
pub open spec fn pgn_moves(pgn: Seq<char>) -> Seq<TMove> {
    game_moves(start_fen(), mainline_moves(pgn)->0)->0
}

/// Converts the main line of the first game of a PGN text into a record.
pub trait TNotationParse<T> {
    /// The record of the game; `None` when the text cannot be read or a move is not legal
    /// in its position.
    fn parse(&self, png_data: &str, white_elo: u16, black_elo: u16, result: u16) -> (r:
        Option<Record<T>>)
        ensures
            r is Some <==> converts(png_data@),
            r matches Some(rec) ==> rec.white_elo == white_elo && rec.black_elo == black_elo
                && rec.result == result,
    ;
}

/// Converts games to packed moves.
pub struct BinaryParser;

/// Converts games to text.
pub struct StringParser;

impl TNotationParse<Vec<u16>> for BinaryParser {
    /// The record holds the packed forms of the game's main-line moves, played in turn
    /// from the starting position (none when the text holds no game).
    fn parse(&self, png_data: &str, white_elo: u16, black_elo: u16, result: u16) -> (r:
        Option<BinaryRecord>)
        ensures
            r is Some <==> (mainline_moves(png_data@) matches Some(sans) && legal_game(
                start_fen(),
                sans,
            )),
            r matches Some(rec) ==> rec.data@ == packed(pgn_moves(png_data@)) && all_wf(
                pgn_moves(png_data@),
            ),
    {
        let sans = match mainline_sans(png_data) {
            None => return None,
            Some(sans) => sans,
        };
        match packed_game(&sans) {
            None => None,
            Some(data) => Some(Record { data, white_elo, black_elo, result }),
        }
    }
}

impl TNotationParse<String> for StringParser {
    /// The record holds the text of the game's main-line moves, played in turn from the
    /// starting position (empty when the text holds no game).
    fn parse(&self, png_data: &str, white_elo: u16, black_elo: u16, result: u16) -> (r:
        Option<StringRecord>)
        ensures
            r is Some <==> (mainline_moves(png_data@) matches Some(sans) && legal_game(
                start_fen(),
                sans,
            )),
            r matches Some(rec) ==> rec.data@ == game_text(pgn_moves(png_data@)) && all_wf(
                pgn_moves(png_data@),
            ),
    {
        let sans = match mainline_sans(png_data) {
            None => return None,
            Some(sans) => sans,
        };
        match text_game(&sans) {
            None => None,
            Some(data) => Some(Record { data, white_elo, black_elo, result }),
        }
    }
}

/// Where the value of `field` starts in `line`: two bytes (a space and a quote) after
/// the first occurrence of the field's name.
pub open spec fn value_start(line: Seq<u8>, field: Seq<u8>) -> Option<int> {
    match find(line, field) {
        None => None,
        Some(i) => Some((i + field.len() + 2) as int),
    }
}

/// The field occurs but its value would start past the end of the line or inside a
/// character.
pub open spec fn field_broken(line: Seq<u8>, field: Seq<u8>) -> bool {
    match value_start(line, field) {
        None => false,
        Some(vs) => !(vs <= line.len() && is_char_boundary(line, vs)),
    }
}

/// The bytes of the value of `field` in `line`: from the value start up to the next
/// quote; `None` when the field or the closing quote is missing.
pub open spec fn field_value(line: Seq<u8>, field: Seq<u8>) -> Option<Seq<u8>> {
    match value_start(line, field) {
        None => None,
        Some(vs) => match find(line.subrange(vs, line.len() as int), seq![34u8]) {
            None => None,
            Some(q) => Some(line.subrange(vs, vs + q)),
        },
    }
}

/// The outcome of looking up a header field in a line.
pub enum FieldLookup<'a> {
    /// The field or the closing quote of its value is missing.
    Missing,
    /// The value would start past the end of the line or inside a character.
    Broken,
    /// The value.
    Found(&'a str),
}

/// Looks up the value of a header field such as `[WhiteElo "1500"]` in a line.
pub fn lookup_field<'a>(line: &'a str, field: &str) -> (r: FieldLookup<'a>)
    ensures
        r is Broken <==> field_broken(line.spec_bytes(), field.spec_bytes()),
        r is Missing <==> !field_broken(line.spec_bytes(), field.spec_bytes()) && field_value(
            line.spec_bytes(),
            field.spec_bytes(),
        ) is None,
        r matches FieldLookup::Found(v) ==> field_value(line.spec_bytes(), field.spec_bytes())
            == Some(v.spec_bytes()),
{
    let lb = line.as_bytes();
    let fb = field.as_bytes();
    match find_bytes(lb, fb) {
        None => FieldLookup::Missing,
        Some(i) => {
            proof {
                crate::text::lemma_find_from_occurs(lb@, fb@, 0);
            }
            if lb.len() - (i + fb.len()) < 2 {
                return FieldLookup::Broken;
            }
            let vs: usize = i + fb.len() + 2;
            if !line.is_char_boundary(vs) {
                return FieldLookup::Broken;
            }
            let (_, rest) = line.split_at(vs);
            let rb = rest.as_bytes();
            let quote: [u8; 1] = [34u8];
            assert(quote@ =~= seq![34u8]);
            match find_bytes(rb, quote.as_slice()) {
                None => FieldLookup::Missing,
                Some(q) => {
                    proof {
                        crate::text::lemma_find_from_occurs(rb@, seq![34u8], 0);
                        assert(rb@.subrange(q as int, q + 1)[0] == 34u8);
                        vstd::utf8::encode_utf8_valid_utf8(rest@);
                        vstd::utf8::is_char_boundary_iff_not_is_continuation_byte(rb@, q as int);
                    }
                    let (value, _) = rest.split_at(q);
                    assert(value.spec_bytes() =~= lb@.subrange(vs as int, vs + q));
                    FieldLookup::Found(value)
                },
            }
        },
    }
}

/// The code of a game result: `0-1` (black wins) is 0, `1/2-1/2` (draw) is 1, `1-0`
/// (white wins) is 2; other texts have none.
pub open spec fn result_code(s: Seq<char>) -> Option<u16> {
    if s == "0-1"@ {
        Some(0)
    } else if s == "1-0"@ {
        Some(2)
    } else if s == "1/2-1/2"@ {
        Some(1)
    } else {
        None
    }
}

/// Whether a text is one of the three game results.
pub fn result_known(input: &str) -> (b: bool)
    ensures
        b == (result_code(input@) is Some),
{
    same_text(input, "0-1") || same_text(input, "1-0") || same_text(input, "1/2-1/2")
}

/// A line of the movetext that starts with the first move number.
pub open spec fn starts_with_first_move(line: Seq<u8>) -> bool {
    line.len() >= 2 && line[0] == 49 && line[1] == 46
}

/// The header values read so far for the current game.
#[derive(Clone, Copy, Debug, PartialEq, Eq, Structural)]
pub struct HeaderFields {
    pub white_elo: Option<u16>,
    pub black_elo: Option<u16>,
    pub result: Option<u16>,
}

impl HeaderFields {
    /// No header value read yet.
    pub fn new() -> (f: HeaderFields)
        ensures
            f.white_elo is None && f.black_elo is None && f.result is None,
    {
        HeaderFields { white_elo: None, black_elo: None, result: None }
    }
}

/// Why a game is refused.
#[derive(Clone, Copy, Debug, PartialEq, Eq, Structural)]
pub enum GameError {
    WhiteEloMissing,
    BlackEloMissing,
}

impl GameError {
    /// The message of the error.
    pub open spec fn text(self) -> Seq<char> {
        match self {
            GameError::WhiteEloMissing => "white elo missing."@,
            GameError::BlackEloMissing => "black elo missing."@,
        }
    }

    /// The message of the error.
    pub fn message(&self) -> (s: String)
        ensures
            s@ == self.text(),
    {
        match self {
            GameError::WhiteEloMissing => String::from_str("white elo missing."),
            GameError::BlackEloMissing => String::from_str("black elo missing."),
        }
    }
}

/// What one line of a PGN file leads to.
#[derive(Clone, Copy, Debug, PartialEq, Eq, Structural)]
pub enum LineOutcome {
    /// Go on with the next line.
    Continue,
    /// The movetext came before a required header value.
    Failed(GameError),
    /// The movetext of a game with all its header values: convert it.
    Game { white_elo: u16, black_elo: u16, result: u16 },
    /// A `Result` header holds no known result.
    UnknownResult,
    /// The movetext came before any `Result` header.
    ResultMissing,
    /// A header field whose value starts past the end of the line or inside a character.
    BrokenField,
}

/// The effect of one line on the header values read so far, and what it leads to. The
/// `WhiteElo`, `BlackElo` and `Result` fields are looked for in this order, and the first
/// one whose value is found is taken; an elo that does not parse is forgotten. A line
/// starting with `1.` is the movetext of the game.
pub open spec fn spec_scan_line(f: HeaderFields, line: Seq<u8>) -> (HeaderFields, LineOutcome) {
    let white = "WhiteElo".spec_bytes();
    let black = "BlackElo".spec_bytes();
    let res = "Result".spec_bytes();
    if field_broken(line, white) {
        (f, LineOutcome::BrokenField)
    } else if field_value(line, white) is Some {
        (
            HeaderFields {
                white_elo: spec_parse_u16(field_value(line, white)->0),
                black_elo: f.black_elo,
                result: f.result,
            },
            LineOutcome::Continue,
        )
    } else if field_broken(line, black) {
        (f, LineOutcome::BrokenField)
    } else if field_value(line, black) is Some {
        (
            HeaderFields {
                white_elo: f.white_elo,
                black_elo: spec_parse_u16(field_value(line, black)->0),
                result: f.result,
            },
            LineOutcome::Continue,
        )
    } else if field_broken(line, res) {
        (f, LineOutcome::BrokenField)
    } else if field_value(line, res) is Some {
        match result_code(decode_utf8(field_value(line, res)->0)) {
            Some(r) => (
                HeaderFields { white_elo: f.white_elo, black_elo: f.black_elo, result: Some(r) },
                LineOutcome::Continue,
            ),
            None => (f, LineOutcome::UnknownResult),
        }
    } else if starts_with_first_move(line) {
        if f.white_elo is None {
            (f, LineOutcome::Failed(GameError::WhiteEloMissing))
        } else if f.black_elo is None {
            (f, LineOutcome::Failed(GameError::BlackEloMissing))
        } else if f.result is None {
            (f, LineOutcome::ResultMissing)
        } else {
            (
                f,
                LineOutcome::Game {
                    white_elo: f.white_elo->0,
                    black_elo: f.black_elo->0,
                    result: f.result->0,
                },
            )
        }
    } else {
        (f, LineOutcome::Continue)
    }
}

/// Reads PGN games one after another from `reader` and converts them with
/// `record_parser`.
pub struct RecordIterator<R, X, T: TNotationParse<X>> {
    pub reader: R,
    pub record_parser: T,
    pub _phantom: PhantomData<X>,
}

impl<R, X, T: TNotationParse<X>> RecordIterator<R, X, T> {
    /// A reader of games from `reader`.
    pub fn new(reader: R, record_parser: T) -> (it: Self)
        ensures
            it.reader == reader,
            it.record_parser == record_parser,
    {
        RecordIterator { reader, record_parser, _phantom: PhantomData }
    }

    /// The code of a game result: 0 black wins, 1 draw, 2 white wins.
    pub fn get_result(input: &str) -> (code: u16)
        requires
            result_code(input@) is Some,
        ensures
            result_code(input@) == Some(code),
    {
        if same_text(input, "0-1") {
            0
        } else if same_text(input, "1-0") {
            2
        } else {
            1
        }
    }

    /// The value of a header field in a line, such as `1500` for `WhiteElo` in
    /// `[WhiteElo "1500"]`.
    pub fn extract_field_value<'a>(line: &'a str, field: &'a str) -> (r: Option<&'a str>)
        requires
            !field_broken(line.spec_bytes(), field.spec_bytes()),
        ensures
            r matches Some(v) ==> field_value(line.spec_bytes(), field.spec_bytes()) == Some(
                v.spec_bytes(),
            ),
            r is None ==> field_value(line.spec_bytes(), field.spec_bytes()) is None,
    {
        match lookup_field(line, field) {
            FieldLookup::Found(v) => Some(v),
            _ => None,
        }
    }

    /// Reads one line of a PGN file into the header values of the current game and says
    /// what it leads to.
    pub fn scan_line(fields: &mut HeaderFields, line: &str) -> (out: LineOutcome)
        ensures
            (*final(fields), out) == spec_scan_line(*old(fields), line.spec_bytes()),
    {
        match lookup_field(line, "WhiteElo") {
            FieldLookup::Broken => return LineOutcome::BrokenField,
            FieldLookup::Found(v) => {
                fields.white_elo = parse_u16(v);
                return LineOutcome::Continue;
            },
            FieldLookup::Missing => {},
        }
        match lookup_field(line, "BlackElo") {
            FieldLookup::Broken => return LineOutcome::BrokenField,
            FieldLookup::Found(v) => {
                fields.black_elo = parse_u16(v);
                return LineOutcome::Continue;
            },
            FieldLookup::Missing => {},
        }
        match lookup_field(line, "Result") {
            FieldLookup::Broken => return LineOutcome::BrokenField,
            FieldLookup::Found(v) => {
                proof {
                    vstd::utf8::encode_utf8_decode_utf8(v@);
                }
                if result_known(v) {
                    fields.result = Some(Self::get_result(v));
                    return LineOutcome::Continue;
                } else {
                    return LineOutcome::UnknownResult;
                }
            },
            FieldLookup::Missing => {},
        }
        let lb = line.as_bytes();
        if lb.len() >= 2 && lb[0] == 49 && lb[1] == 46 {
            if fields.white_elo.is_none() {
                LineOutcome::Failed(GameError::WhiteEloMissing)
            } else if fields.black_elo.is_none() {
                LineOutcome::Failed(GameError::BlackEloMissing)
            } else {
                match (fields.white_elo, fields.black_elo, fields.result) {
                    (Some(w), Some(b), Some(r)) => LineOutcome::Game {
                        white_elo: w,
                        black_elo: b,
                        result: r,
                    },
                    _ => LineOutcome::ResultMissing,
                }
            }
        } else {
            LineOutcome::Continue
        }
    }
}

} // verus!
