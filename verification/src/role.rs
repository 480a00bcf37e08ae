use vstd::prelude::*;

verus! {

/// The kind of a chess piece.
#[derive(Clone, Copy, Debug, PartialEq, Eq, Structural)]
pub enum Role {
    Pawn,
    Knight,
    Bishop,
    Rook,
    Queen,
    King,
}

/// The letter of an optional role: `'-'` stands for no role.
pub open spec fn option_letter(role: Option<Role>) -> char {
    match role {
        None => '-',
        Some(r) => r.letter(),
    }
}

/// Whether a number is the code of a role (`1` for a pawn up to `6` for a king).
pub open spec fn is_role_code(code: int) -> bool {
    1 <= code <= 6
}

impl Role {
    /// The numeric code of the role: pawn 1, knight 2, bishop 3, rook 4, queen 5, king 6.
    pub open spec fn code(self) -> u16 {
        match self {
            Role::Pawn => 1,
            Role::Knight => 2,
            Role::Bishop => 3,
            Role::Rook => 4,
            Role::Queen => 5,
            Role::King => 6,
        }
    }

    /// The role with a given code; codes outside `1..=6` have no role and give a king.
    pub open spec fn of_code(code: int) -> Role {
        if code == 1 {
            Role::Pawn
        } else if code == 2 {
            Role::Knight
        } else if code == 3 {
            Role::Bishop
        } else if code == 4 {
            Role::Rook
        } else if code == 5 {
            Role::Queen
        } else {
            Role::King
        }
    }

    /// The lower-case English letter of the role.
    pub open spec fn letter(self) -> char {
        match self {
            Role::Pawn => 'p',
            Role::Knight => 'n',
            Role::Bishop => 'b',
            Role::Rook => 'r',
            Role::Queen => 'q',
            Role::King => 'k',
        }
    }

    /// The lower-case English letter of the role.
    pub fn char(self) -> (c: char)
        ensures
            c == self.letter(),
    {
        match self {
            Role::Pawn => 'p',
            Role::Knight => 'n',
            Role::Bishop => 'b',
            Role::Rook => 'r',
            Role::Queen => 'q',
            Role::King => 'k',
        }
    }

    /// The numeric code of the role.
    pub fn to_u16(self) -> (v: u16)
        ensures
            v == self.code(),
            is_role_code(v as int),
    {
        match self {
            Role::Pawn => 1,
            Role::Knight => 2,
            Role::Bishop => 3,
            Role::Rook => 4,
            Role::Queen => 5,
            Role::King => 6,
        }
    }

    /// The role with the given code.
    pub fn from_u16(value: u16) -> (r: Role)
        requires
            is_role_code(value as int),
        ensures
            r.code() == value,
            r == Role::of_code(value as int),
    {
        if value == 1 {
            Role::Pawn
        } else if value == 2 {
            Role::Knight
        } else if value == 3 {
            Role::Bishop
        } else if value == 4 {
            Role::Rook
        } else if value == 5 {
            Role::Queen
        } else {
            Role::King
        }
    }

    /// The letter of an optional role, `'-'` when there is none.
    pub fn to_char(role: Option<Role>) -> (c: char)
        ensures
            c == option_letter(role),
    {
        match role {
            None => '-',
            Some(r) => r.char(),
        }
    }

    /// The letter of an optional role as a one-character string.
    pub fn to_string(role: Option<Role>) -> (s: String)
        ensures
            s@ == seq![option_letter(role)],
    {
        let mut s = String::new();
        crate::text::push_char(&mut s, Role::to_char(role));
        s
    }
}

/// Every role is the role of its own code.
pub proof fn lemma_role_code_roundtrip(r: Role)
    ensures
        is_role_code(r.code() as int),
        Role::of_code(r.code() as int) == r,
{
}

} // verus!
