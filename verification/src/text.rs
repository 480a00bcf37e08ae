use vstd::prelude::*;
use vstd::string::StringSliceAdditionalSpecFns;

verus! {

/// `String::push` of std: appends one character at the end of the string.
#[verifier::external_body]
pub(crate) fn push_char(s: &mut String, c: char)
    ensures
        final(s)@ == old(s)@.push(c),
{
    s.push(c);
}

/// The character of a decimal digit.
pub open spec fn digit_char(d: nat) -> char {
    (48 + d) as char
}

/// The decimal digits of a natural number, most significant first, without leading zeros.
pub open spec fn decimal(n: nat) -> Seq<char>
    decreases n,
{
    if n < 10 {
        seq![digit_char(n)]
    } else {
        decimal(n / 10).push(digit_char(n % 10))
    }
}

/// Appends the decimal digits of `n` to `s`.
pub fn push_decimal(s: &mut String, n: u32)
    ensures
        final(s)@ == old(s)@ + decimal(n as nat),
    decreases n,
{
    let ghost before = s@;
    if n >= 10 {
        push_decimal(s, n / 10);
    }
    let d: u8 = (n % 10) as u8;
    let c: char = (48u8 + d) as char;
    push_char(s, c);
    assert(s@ =~= before + decimal(n as nat));
}

/// The name of a file letter of a square index: `a` to `h`.
pub open spec fn file_char(sq: u8) -> char {
    (97 + sq % 8) as char
}

/// The rank digit of a square index: `1` to `8`.
pub open spec fn rank_char(sq: u8) -> char {
    (49 + sq / 8) as char
}

/// The name of a square, such as `e4`; square 0 is `a1`, square 63 is `h8`.
pub open spec fn square_name(sq: u8) -> Seq<char> {
    seq![file_char(sq), rank_char(sq)]
}

/// Appends the name of square `sq` to `s`.
pub fn push_square(s: &mut String, sq: u8)
    requires
        sq < 64,
    ensures
        final(s)@ == old(s)@ + square_name(sq),
{
    let ghost before = s@;
    let f: char = (97u8 + sq % 8) as char;
    let r: char = (49u8 + sq / 8) as char;
    push_char(s, f);
    push_char(s, r);
    assert(s@ =~= before + square_name(sq));
}

/// Whether `needle` occurs in `hay` starting at byte `k`.
pub open spec fn occurs_at(hay: Seq<u8>, needle: Seq<u8>, k: int) -> bool {
    0 <= k && k + needle.len() <= hay.len() && hay.subrange(k, k + needle.len()) == needle
}

/// The first position at or after `k` where `needle` occurs in `hay`.
pub open spec fn find_from(hay: Seq<u8>, needle: Seq<u8>, k: nat) -> Option<nat>
    decreases hay.len() + 1 - k,
{
    if k + needle.len() > hay.len() {
        None
    } else if occurs_at(hay, needle, k as int) {
        Some(k)
    } else {
        find_from(hay, needle, k + 1)
    }
}

/// A position that `find_from` reports is an occurrence at or after `k`.
pub proof fn lemma_find_from_occurs(hay: Seq<u8>, needle: Seq<u8>, k: nat)
    ensures
        find_from(hay, needle, k) matches Some(i) ==> k <= i && occurs_at(hay, needle, i as int),
    decreases hay.len() + 1 - k,
{
    if k + needle.len() > hay.len() {
    } else if occurs_at(hay, needle, k as int) {
    } else {
        lemma_find_from_occurs(hay, needle, k + 1);
    }
}

/// The first position where `needle` occurs in `hay`.
pub open spec fn find(hay: Seq<u8>, needle: Seq<u8>) -> Option<nat> {
    find_from(hay, needle, 0)
}

/// Whether `needle` occurs in `hay` at byte `k`.
fn occurs_at_exec(hay: &[u8], needle: &[u8], k: usize) -> (b: bool)
    requires
        k + needle@.len() <= hay@.len(),
    ensures
        b == occurs_at(hay@, needle@, k as int),
{
    let n: usize = hay.len();
    let mut j: usize = 0;
    while j < needle.len()
        invariant
            n == hay@.len(),
            k + needle@.len() <= hay@.len(),
            j <= needle@.len(),
            forall|t: int| 0 <= t < j ==> hay@[k + t] == needle@[t],
        decreases needle@.len() - j,
    {
        if hay[k + j] != needle[j] {
            assert(hay@.subrange(k as int, k + needle@.len())[j as int] != needle@[j as int]);
            return false;
        }
        j = j + 1;
    }
    assert(hay@.subrange(k as int, k + needle@.len()) =~= needle@);
    true
}

/// The first position where `needle` occurs in `hay` (as `str::find` reports it for
/// byte strings).
pub fn find_bytes(hay: &[u8], needle: &[u8]) -> (r: Option<usize>)
    ensures
        r matches Some(i) ==> find(hay@, needle@) == Some(i as nat),
        r is None ==> find(hay@, needle@) is None,
{
    if needle.len() > hay.len() {
        return None;
    }
    let last: usize = hay.len() - needle.len();
    let mut k: usize = 0;
    loop
        invariant
            k <= last,
            last + needle@.len() == hay@.len(),
            find_from(hay@, needle@, 0) == find_from(hay@, needle@, k as nat),
        decreases last - k,
    {
        if occurs_at_exec(hay, needle, k) {
            return Some(k);
        }
        if k == last {
            assert(find_from(hay@, needle@, (k + 1) as nat) is None);
            return None;
        }
        k = k + 1;
    }
}

/// A byte that can start a decimal digit: `0` to `9`.
pub open spec fn is_digit_byte(b: u8) -> bool {
    48 <= b <= 57
}

/// The value of a string of decimal digit bytes.
pub open spec fn digits_value(s: Seq<u8>) -> int
    decreases s.len(),
{
    if s.len() == 0 {
        0
    } else {
        digits_value(s.drop_last()) * 10 + (s.last() - 48)
    }
}

/// The digits of a number: the bytes after an optional leading `+`.
pub open spec fn unsigned_digits(s: Seq<u8>) -> Seq<u8> {
    if s.len() > 0 && s[0] == 43 {
        s.drop_first()
    } else {
        s
    }
}

/// What `u16::from_str` gives for a string's bytes: an optional `+` followed by at least
/// one decimal digit and nothing else, whose value fits in 16 bits.
pub open spec fn spec_parse_u16(s: Seq<u8>) -> Option<u16> {
    let d = unsigned_digits(s);
    if d.len() > 0 && (forall|i: int| 0 <= i < d.len() ==> is_digit_byte(#[trigger] d[i]))
        && digits_value(d) <= 65535 {
        Some(digits_value(d) as u16)
    } else {
        None
    }
}

/// The value of a prefix of a string of digits is at most the value of the string.
proof fn lemma_digits_value_prefix(s: Seq<u8>, k: int)
    requires
        0 <= k <= s.len(),
        forall|i: int| 0 <= i < s.len() ==> is_digit_byte(#[trigger] s[i]),
    ensures
        0 <= digits_value(s.take(k)) <= digits_value(s),
    decreases s.len(),
{
    if s.len() == 0 {
        assert(s.take(k) =~= s);
    } else {
        let p = s.drop_last();
        assert(is_digit_byte(s[s.len() - 1]));
        if k == s.len() {
            assert(s.take(k) =~= s);
            lemma_digits_value_prefix(p, 0);
        } else {
            assert(p.take(k) =~= s.take(k));
            lemma_digits_value_prefix(p, k);
        }
    }
}

/// The decimal numeral of `n`: its digits as bytes `0` to `9`, most significant first,
/// with no leading zero.
pub open spec fn decimal_numeral(n: nat) -> Seq<u8>
    decreases n,
{
    if n < 10 {
        seq![(48 + n) as u8]
    } else {
        decimal_numeral(n / 10).push((48 + n % 10) as u8)
    }
}

/// A decimal numeral is a non-empty string of digits whose value is the number.
proof fn lemma_decimal_numeral(n: nat)
    ensures
        decimal_numeral(n).len() > 0,
        forall|i: int| 0 <= i < decimal_numeral(n).len() ==> is_digit_byte(
            #[trigger] decimal_numeral(n)[i],
        ),
        digits_value(decimal_numeral(n)) == n,
        decimal_numeral(n)[0] != 43,
    decreases n,
{
    if n >= 10 {
        lemma_decimal_numeral(n / 10);
        let s = decimal_numeral(n);
        assert(s.drop_last() =~= decimal_numeral(n / 10));
        assert(s[0] == decimal_numeral(n / 10)[0]);
        assert(s.last() == (48 + n % 10) as u8);
        assert(digits_value(s) == digits_value(decimal_numeral(n / 10)) * 10 + n % 10);
        assert((n / 10) * 10 + n % 10 == n) by (nonlinear_arith);
        assert(digits_value(decimal_numeral(n / 10)) * 10 == (n / 10) * 10);
    } else {
        let s = decimal_numeral(n);
        assert(s.drop_last() =~= Seq::<u8>::empty());
        assert(s.last() == 48 + n);
        assert(digits_value(s) == digits_value(s.drop_last()) * 10 + (s.last() - 48));
    }
}

/// Every number up to 65535 written in decimal, with or without a leading `+`, reads back
/// as that number, and every larger one is refused.
pub proof fn lemma_parse_decimal(n: nat)
    ensures
        n <= 65535 ==> spec_parse_u16(decimal_numeral(n)) == Some(n as u16),
        n <= 65535 ==> spec_parse_u16(seq![43u8] + decimal_numeral(n)) == Some(n as u16),
        n > 65535 ==> spec_parse_u16(decimal_numeral(n)) is None,
{
    lemma_decimal_numeral(n);
    let d = decimal_numeral(n);
    assert(unsigned_digits(d) == d);
    assert((seq![43u8] + d).drop_first() =~= d);
    assert(unsigned_digits(seq![43u8] + d) == d);
}

/// What `str::parse::<u16>` of std gives: the value of an optional `+` followed only by
/// decimal digits, when it fits in 16 bits.
pub fn parse_u16(s: &str) -> (r: Option<u16>)
    ensures
        r == spec_parse_u16(s.spec_bytes()),
{
    let b = s.as_bytes();
    let n: usize = b.len();
    let start: usize = if n > 0 && b[0] == 43 { 1 } else { 0 };
    let ghost d = unsigned_digits(b@);
    assert(d =~= b@.subrange(start as int, n as int));
    if start == n {
        return None;
    }
    let mut v: u32 = 0;
    let mut i: usize = start;
    assert(b@.subrange(start as int, start as int) =~= Seq::<u8>::empty());
    while i < n
        invariant
            b@ == s.spec_bytes(),
            d == unsigned_digits(b@),
            n == b@.len(),
            start <= i <= n,
            d == b@.subrange(start as int, n as int),
            v <= 65535,
            forall|j: int| start <= j < i ==> is_digit_byte(#[trigger] b@[j]),
            v == digits_value(b@.subrange(start as int, i as int)),
        decreases n - i,
    {
        let c: u8 = b[i];
        assert(d[i - start] == c);
        if c < 48 || c > 57 {
            assert(!is_digit_byte(d[i - start]));
            assert(!(forall|j: int| 0 <= j < d.len() ==> is_digit_byte(#[trigger] d[j])));
            return None;
        }
        let nv: u32 = v * 10 + (c - 48) as u32;
        assert(b@.subrange(start as int, i + 1).drop_last() =~= b@.subrange(start as int, i as int));
        assert(b@.subrange(start as int, i + 1).last() == c);
        assert(nv == digits_value(b@.subrange(start as int, i + 1)));
        if nv > 65535 {
            proof {
                if forall|j: int| 0 <= j < d.len() ==> is_digit_byte(#[trigger] d[j]) {
                    lemma_digits_value_prefix(d, (i + 1 - start) as int);
                    assert(d.take((i + 1 - start) as int) =~= b@.subrange(start as int, i + 1));
                }
            }
            return None;
        }
        v = nv;
        i = i + 1;
    }
    assert forall|j: int| 0 <= j < d.len() implies is_digit_byte(#[trigger] d[j]) by {
        assert(d[j] == b@[start + j]);
    }
    assert(d =~= b@.subrange(start as int, i as int));
    Some(v as u16)
}

/// Whether two byte strings are equal.
pub fn same_bytes(a: &[u8], b: &[u8]) -> (r: bool)
    ensures
        r == (a@ == b@),
{
    if a.len() != b.len() {
        return false;
    }
    let mut i: usize = 0;
    while i < a.len()
        invariant
            a@.len() == b@.len(),
            i <= a@.len(),
            forall|t: int| 0 <= t < i ==> a@[t] == b@[t],
        decreases a@.len() - i,
    {
        if a[i] != b[i] {
            return false;
        }
        i = i + 1;
    }
    assert(a@ =~= b@);
    true
}

/// Whether two strings hold the same characters.
pub fn same_text(a: &str, b: &str) -> (r: bool)
    ensures
        r == (a@ == b@),
{
    proof {
        vstd::utf8::encode_utf8_decode_utf8(a@);
        vstd::utf8::encode_utf8_decode_utf8(b@);
    }
    same_bytes(a.as_bytes(), b.as_bytes())
}

} // verus!
