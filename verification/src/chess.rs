use vstd::prelude::*;
use shakmaty::{CastlingMode, Chess, EnPassantMode, Position};
use shakmaty::fen::Fen;
use shakmaty::san::San;
use crate::role::{Role, is_role_code};
use crate::encoding::{CastlingSide, SanKind};

verus! {

/// A chess position as text: its FEN (board, side to move, castling rights, en passant
/// square and move counters).
pub open spec fn start_fen() -> Seq<char> {
    "rnbqkbnr/pppppppp/8/8/8/8/PPPPPPPP/RNBQKBNR w KQkq - 0 1"@
}

/// The FEN of the standard starting position (`Chess::default` of shakmaty).
pub fn start_position() -> (fen: String)
    ensures
        fen@ == start_fen(),
{
    String::from_str("rnbqkbnr/pppppppp/8/8/8/8/PPPPPPPP/RNBQKBNR w KQkq - 0 1")
}

/// What a resolved move reports, as plain values: the role discriminants (1 pawn to 6
/// king) of the moving, captured and promotion pieces and the square indices (0 for a1
/// to 63 for h8) of origin and target; for castling the target is the rook's square.
#[derive(Clone, Copy, Debug, PartialEq, Eq, Structural)]
pub struct MoveParts {
    pub role: u8,
    pub from: Option<u8>,
    pub to: u8,
    pub capture: Option<u8>,
    pub promotion: Option<u8>,
}

impl MoveParts {
    /// The discriminants name roles, the squares are on the board, and only pawns promote.
    pub open spec fn wf(self) -> bool {
        &&& is_role_code(self.role as int)
        &&& self.from matches Some(f) ==> f < 64
        &&& self.to < 64
        &&& self.capture matches Some(c) ==> is_role_code(c as int)
        &&& self.promotion matches Some(c) ==> is_role_code(c as int)
        &&& self.promotion is Some ==> self.role == 1
    }
}

/// The move that the SAN text `san` denotes in the position with FEN `fen`, as
/// `San::to_move` of shakmaty resolves it; `None` when the FEN or the SAN does not parse,
/// the position is not a valid standard chess position, or the move is not legal there.
pub uninterp spec fn resolved_move(fen: Seq<char>, san: Seq<char>) -> Option<MoveParts>;

/// The FEN of the position after the move that `san` denotes in `fen` is played.
pub uninterp spec fn fen_after(fen: Seq<char>, san: Seq<char>) -> Seq<char>;

/// Whether each of the moves `sans` (SAN texts) is legal in turn, from the position
/// `fen`.
pub open spec fn legal_game(fen: Seq<char>, sans: Seq<Seq<char>>) -> bool
    decreases sans.len(),
{
    sans.len() == 0 || (resolved_move(fen, sans[0]) is Some && legal_game(
        fen_after(fen, sans[0]),
        sans.drop_first(),
    ))
}

/// The form of the SAN text `san` as `San::from_ascii` of shakmaty parses it; `None` when
/// it does not parse.
pub uninterp spec fn parsed_san_kind(san: Seq<char>) -> Option<SanKind>;

/// `San::to_move` of shakmaty on the position `fen` (read with `Fen::from_ascii` and set
/// up by `Fen::into_position`, which refuses positions that are not valid, such as one
/// without a king) and the move `san` (read with `San::from_ascii`). The result is named;
/// of it the source shows that roles are discriminants 1 to 6, squares 0 to 63, and that
/// legal promotions are generated for pawns only. A move is only resolved from a SAN that
/// parses as a normal move or as castling (standard chess generates no drops, and a null
/// move is refused), every such move has an origin square, and castling in standard mode
/// moves a king that stands on e1 or e8 (castling rights are only accepted there).
#[verifier::external_body]
pub(crate) fn resolve_san(fen: &str, san: &str) -> (r: Option<MoveParts>)
    ensures
        r == resolved_move(fen@, san@),
        r matches Some(p) ==> p.wf(),
        r matches Some(p) ==> p.from is Some && (parsed_san_kind(san@) matches Some(k) && (
            k is Normal || (k is Castle && (p.from == Some(4u8) || p.from == Some(60u8))))),
{
    let pos: Chess = Fen::from_ascii(fen.as_bytes()).ok()?.into_position(CastlingMode::Standard).ok()?;
    let m = San::from_ascii(san.as_bytes()).ok()?.to_move(&pos).ok()?;
    let (from, to) = (m.from().map(u8::from), u8::from(m.to()));
    let (capture, promotion) = (m.capture().map(u8::from), m.promotion().map(u8::from));
    Some(MoveParts { role: u8::from(m.role()), from, to, capture, promotion })
}

/// `Position::play_unchecked` of shakmaty with the move that `San::to_move` resolved on
/// the same position (as in `resolve_san`), written back with `Fen::from_position`. It
/// gives a position exactly when `resolve_san` gives a move; the new FEN is named.
#[verifier::external_body]
pub(crate) fn play_san(fen: &str, san: &str) -> (r: Option<String>)
    ensures
        r is Some <==> resolved_move(fen@, san@) is Some,
        r matches Some(f) ==> f@ == fen_after(fen@, san@),
{
    let mut pos: Chess = Fen::from_ascii(fen.as_bytes()).ok()?.into_position(CastlingMode::Standard).ok()?;
    let m = San::from_ascii(san.as_bytes()).ok()?.to_move(&pos).ok()?;
    pos.play_unchecked(&m);
    Some(Fen::from_position(pos, EnPassantMode::Legal).to_string())
}

/// `San::from_ascii` of shakmaty, reduced to the variant of the parsed `San` (one arm per
/// variant). The result is named.
#[verifier::external_body]
pub(crate) fn san_form(san: &str) -> (r: Option<SanKind>)
    ensures
        r == parsed_san_kind(san@),
{
    match San::from_ascii(san.as_bytes()).ok()? {
        San::Normal { .. } => Some(SanKind::Normal),
        San::Castle(shakmaty::CastlingSide::KingSide) => Some(SanKind::Castle(CastlingSide::KingSide)),
        San::Castle(shakmaty::CastlingSide::QueenSide) => Some(SanKind::Castle(CastlingSide::QueenSide)),
        San::Put { .. } => Some(SanKind::Put),
        San::Null => Some(SanKind::Null),
    }
}

/// What T-notation reads of a resolved move.
#[derive(Clone, Copy, Debug, PartialEq, Eq, Structural)]
pub struct RawMove {
    pub role: Role,
    pub from: u8,
    pub to: u8,
    pub capture: Option<Role>,
    pub promotion: Option<Role>,
}

impl RawMove {
    /// Both squares are on the board.
    pub open spec fn wf(self) -> bool {
        self.from < 64 && self.to < 64
    }
}

/// The optional role of an optional discriminant.
pub open spec fn role_of(code: Option<u8>) -> Option<Role> {
    match code {
        None => None,
        Some(c) => Some(Role::of_code(c as int)),
    }
}

/// The optional role with an optional discriminant.
fn role_of_code(code: Option<u8>) -> (r: Option<Role>)
    requires
        code matches Some(c) ==> is_role_code(c as int),
    ensures
        r == role_of(code),
{
    match code {
        None => None,
        Some(c) => Some(Role::from_u16(c as u16)),
    }
}

/// The move that the read parts of a resolved move make up: `None` when there is no
/// origin square (a piece drop), otherwise the roles of the discriminants and the squares.
pub open spec fn spec_raw_move(
    role: u8,
    from: Option<u8>,
    to: u8,
    capture: Option<u8>,
    promotion: Option<u8>,
) -> Option<RawMove> {
    match from {
        None => None,
        Some(f) => Some(
            RawMove {
                role: Role::of_code(role as int),
                from: f,
                to,
                capture: role_of(capture),
                promotion: role_of(promotion),
            },
        ),
    }
}

/// The move that the parts of a resolved move make up.
pub open spec fn spec_read_move(parts: MoveParts) -> Option<RawMove> {
    spec_raw_move(parts.role, parts.from, parts.to, parts.capture, parts.promotion)
}

/// Assembles the parts read of a resolved move (role, origin, target, capture and
/// promotion discriminants) into a `RawMove`; `None` without an origin square.
pub fn raw_move(
    role: u8,
    from: Option<u8>,
    to: u8,
    capture: Option<u8>,
    promotion: Option<u8>,
) -> (r: Option<RawMove>)
    requires
        is_role_code(role as int),
        from matches Some(f) ==> f < 64,
        to < 64,
        capture matches Some(c) ==> is_role_code(c as int),
        promotion matches Some(c) ==> is_role_code(c as int),
    ensures
        r == spec_raw_move(role, from, to, capture, promotion),
        r matches Some(x) ==> x.wf(),
{
    match from {
        None => None,
        Some(from) => {
            let role = Role::from_u16(role as u16);
            let capture = role_of_code(capture);
            let promotion = role_of_code(promotion);
            Some(RawMove { role, from, to, capture, promotion })
        },
    }
}

/// The parts of a resolved move that T-notation reads; `None` for a piece drop, which has
/// no origin square.
pub fn read_move(parts: &MoveParts) -> (r: Option<RawMove>)
    requires
        parts.wf(),
    ensures
        r == spec_read_move(*parts),
        r matches Some(x) ==> x.wf() && (x.promotion is Some ==> x.role == Role::Pawn),
{
    raw_move(parts.role, parts.from, parts.to, parts.capture, parts.promotion)
}

} // verus!
