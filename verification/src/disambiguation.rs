use vstd::prelude::*;
use crate::chess::{
    MoveParts, RawMove, fen_after, parsed_san_kind, resolved_move, play_san, read_move, resolve_san, san_form,
    spec_read_move, start_fen, start_position,
};
use crate::encoding::{
    SanKind, TMove, castle_position, castle_position_defined, castle_position_defined_exec,
    spec_castle_position,
};
use crate::text::push_char;
use crate::chess::role_of;
use crate::role::Role;

verus! {

/// The T-notation of a move read as `raw` and written as `kind`: the king's landing
/// square replaces the target of a castling move; `None` where `castle_position` gives no
/// square.
pub open spec fn spec_tmove_of(raw: RawMove, kind: SanKind) -> Option<TMove> {
    if castle_position_defined(kind, raw.from) {
        Some(
            TMove {
                role: raw.role,
                promotion: raw.promotion,
                from: raw.from,
                to: spec_castle_position(kind, raw.from, raw.to),
            },
        )
    } else {
        None
    }
}

/// The T-notation of a move keeps the moving piece, the promotion piece and the origin
/// square of the move, and what the move captures never changes it; a move written in
/// normal form also keeps its target square.
pub proof fn lemma_tmove_keeps_move(raw: RawMove, kind: SanKind, capture: Option<Role>)
    ensures
        spec_tmove_of(raw, kind) matches Some(mv) ==> mv.role == raw.role && mv.promotion
            == raw.promotion && mv.from == raw.from,
        kind is Normal ==> spec_tmove_of(raw, kind) == Some(
            TMove { role: raw.role, promotion: raw.promotion, from: raw.from, to: raw.to },
        ),
        spec_tmove_of(
            RawMove {
                role: raw.role,
                from: raw.from,
                to: raw.to,
                capture: capture,
                promotion: raw.promotion,
            },
            kind,
        ) == spec_tmove_of(raw, kind),
{
}

/// The T-notation of a move read as `raw` and written as `kind`.
pub fn tmove_of(raw: RawMove, kind: SanKind) -> (r: Option<TMove>)
    requires
        raw.wf(),
    ensures
        r == spec_tmove_of(raw, kind),
        r matches Some(mv) ==> mv.wf(),
{
    if !castle_position_defined_exec(kind, raw.from) {
        return None;
    }
    let to: u8 = castle_position(kind, raw.from, raw.to);
    Some(TMove { role: raw.role, promotion: raw.promotion, from: raw.from, to })
}

/// The T-notation of a resolved move whose SAN has the form `kind` (`None` when the SAN
/// did not parse).
pub open spec fn spec_tmove_from(parts: MoveParts, kind: Option<SanKind>) -> Option<TMove> {
    match spec_read_move(parts) {
        None => None,
        Some(raw) => match kind {
            None => None,
            Some(k) => spec_tmove_of(raw, k),
        },
    }
}

/// The T-notation of a resolved move, or `None` where the move has no origin square, the
/// SAN form is unknown, or it is a castling move whose king does not start on e1 or e8.
pub fn tmove_from(parts: &MoveParts, kind: Option<SanKind>) -> (r: Option<TMove>)
    requires
        parts.wf(),
    ensures
        r == spec_tmove_from(*parts, kind),
        r matches Some(mv) ==> mv.wf() && mv.pawn_promotion(),
{
    match read_move(parts) {
        None => None,
        Some(raw) => match kind {
            None => None,
            Some(k) => tmove_of(raw, k),
        },
    }
}

/// The T-notation of the move that the SAN text `san` denotes in the position `fen`.
pub open spec fn spec_convert(fen: Seq<char>, san: Seq<char>) -> Option<TMove> {
    match resolved_move(fen, san) {
        None => None,
        Some(parts) => spec_tmove_from(parts, parsed_san_kind(san)),
    }
}

/// The T-notation of the move a SAN text denotes in a position has the moving piece,
/// the promotion piece and the origin square of the resolved move, whether or not the
/// move captures.
pub proof fn lemma_convert_keeps_move(fen: Seq<char>, san: Seq<char>)
    ensures
        spec_convert(fen, san) matches Some(mv) ==> {
            let parts = resolved_move(fen, san)->0;
            &&& mv.promotion == role_of(parts.promotion)
            &&& mv.role == Role::of_code(parts.role as int)
            &&& parts.from == Some(mv.from)
        },
{
}

/// A game being converted: the current position (as FEN) and the output written so far.
pub struct TNotation<T> {
    pos: String,
    result: T,
}

impl<T> TNotation<T> {
    /// The output written so far.
    pub closed spec fn output(self) -> T {
        self.result
    }

    /// The FEN of the current position.
    pub closed spec fn position(self) -> Seq<char> {
        self.pos@
    }

    /// A conversion at the starting position, writing after `result`.
    pub fn new(result: T) -> (t: TNotation<T>)
        ensures
            t.output() == result,
            t.position() == start_fen(),
    {
        TNotation { pos: start_position(), result }
    }

    /// Ends the conversion and hands out the output.
    pub fn consume(self) -> (r: T)
        ensures
            r == self.output(),
    {
        self.result
    }

    /// Variations are skipped: only the main line is converted.
    pub fn begin_variation(&mut self) -> (skip: bool)
        ensures
            skip,
            final(self).output() == old(self).output(),
            final(self).position() == old(self).position(),
    {
        crate::reading::skip_variation()
    }

    /// The end of a game; the conversion reports no failure of its own here.
    pub fn end_game(&mut self) -> (ok: bool)
        ensures
            ok,
            final(self).output() == old(self).output(),
            final(self).position() == old(self).position(),
    {
        true
    }

    /// The T-notation of `san` in the current position and the FEN after it.
    fn resolve(&self, san: &str) -> (r: Option<(TMove, String)>)
        ensures
            r is Some <==> spec_convert(self.position(), san@) is Some,
            r is Some <==> resolved_move(self.position(), san@) is Some,
            r matches Some((mv, next)) ==> Some(mv) == spec_convert(self.position(), san@)
                && mv.wf() && mv.pawn_promotion() && next@ == fen_after(self.position(), san@),
    {
        let parts = match resolve_san(self.pos.as_str(), san) {
            None => return None,
            Some(p) => p,
        };
        let mv = match tmove_from(&parts, san_form(san)) {
            None => return None,
            Some(mv) => mv,
        };
        match play_san(self.pos.as_str(), san) {
            None => None,
            Some(next) => Some((mv, next)),
        }
    }
}

impl TNotation<String> {
    /// Converts the next move of the main line, given as SAN text, to text: the notation
    /// of the move it denotes in the current position and a space are appended and the
    /// move is played. `None`, and nothing changes, when it denotes no legal move there.
    pub fn san(&mut self, san: &str) -> (r: Option<TMove>)
        ensures
            r == spec_convert(old(self).position(), san@),
            r is Some <==> resolved_move(old(self).position(), san@) is Some,
            r matches Some(mv) ==> mv.wf() && mv.pawn_promotion() && final(self).output()@
                == old(self).output()@ + mv.notation() + seq![' '] && final(self).position()
                == fen_after(old(self).position(), san@),
            r is None ==> final(self).output() == old(self).output() && final(self).position()
                == old(self).position(),
    {
        match self.resolve(san) {
            None => None,
            Some((mv, next)) => {
                let x = mv.notation_string();
                let ghost before = self.result@;
                self.result.append(x.as_str());
                push_char(&mut self.result, ' ');
                assert(self.result@ =~= before + mv.notation() + seq![' ']);
                self.pos = next;
                Some(mv)
            },
        }
    }
}

impl TNotation<Vec<u16>> {
    /// Converts the next move of the main line, given as SAN text, to its packed form:
    /// the packed form of the move it denotes in the current position is appended and the
    /// move is played. `None`, and nothing changes, when it denotes no legal move there.
    pub fn san(&mut self, san: &str) -> (r: Option<TMove>)
        ensures
            r == spec_convert(old(self).position(), san@),
            r is Some <==> resolved_move(old(self).position(), san@) is Some,
            r matches Some(mv) ==> mv.wf() && mv.pawn_promotion() && final(self).output()@
                == old(self).output()@.push(mv.encoded()) && final(self).position() == fen_after(
                old(self).position(),
                san@,
            ),
            r is None ==> final(self).output() == old(self).output() && final(self).position()
                == old(self).position(),
    {
        match self.resolve(san) {
            None => None,
            Some((mv, next)) => {
                let x: u16 = mv.to_bits();
                self.result.push(x);
                self.pos = next;
                Some(mv)
            },
        }
    }
}

} // verus!
