//! Page cursors: the decimal text of a 1-based page number.
use vstd::prelude::*;

verus! {

/// Whether `c` is one of the ASCII digits `0` to `9`.
pub open spec fn is_digit(c: char) -> bool {
    '0' <= c && c <= '9'
}

/// The value of an ASCII digit.
pub open spec fn digit_value(c: char) -> nat {
    (c as int - '0' as int) as nat
}

/// The ASCII digit of a value below ten.
pub open spec fn digit_char(d: nat) -> char {
    (d + '0' as int) as char
}

/// The value of a string of digits, most significant first.
pub open spec fn digits_value(s: Seq<char>) -> nat
    decreases s.len(),
{
    if s.len() == 0 {
        0
    } else {
        digits_value(s.drop_last()) * 10 + digit_value(s.last())
    }
}

/// The digits of a natural number, most significant first, without leading zeros.
pub open spec fn digits_of(n: nat) -> Seq<char>
    decreases n,
{
    if n < 10 {
        seq![digit_char(n)]
    } else {
        digits_of(n / 10).push(digit_char(n % 10))
    }
}

/// The decimal text of an integer: a `-` before the digits of a negative one.
pub open spec fn decimal_of(n: int) -> Seq<char> {
    if n < 0 {
        seq!['-'] + digits_of((-n) as nat)
    } else {
        digits_of(n as nat)
    }
}

/// Whether `n` fits in an `i64`.
pub open spec fn fits_i64(n: int) -> bool {
    i64::MIN <= n && n <= i64::MAX
}

/// The `i64` that a text denotes: an optional `+` or `-` and one or more digits,
/// nothing else, with a value in range. `None` for any other text.
pub open spec fn decimal_parse(s: Seq<char>) -> Option<int> {
    let signed = s.len() > 0 && (s[0] == '+' || s[0] == '-');
    let body = if signed { s.drop_first() } else { s };
    let magnitude = digits_value(body) as int;
    let v = if signed && s[0] == '-' { -magnitude } else { magnitude };
    if body.len() > 0 && (forall|i: int| 0 <= i < body.len() ==> is_digit(#[trigger] body[i]))
        && fits_i64(v) {
        Some(v)
    } else {
        None
    }
}

proof fn lemma_digit_char(d: nat)
    requires
        d < 10,
    ensures
        is_digit(digit_char(d)),
        digit_value(digit_char(d)) == d,
        digit_char(d) != '-' && digit_char(d) != '+',
{
}

proof fn lemma_digits_of(n: nat)
    ensures
        digits_of(n).len() > 0,
        forall|i: int| 0 <= i < digits_of(n).len() ==> is_digit(#[trigger] digits_of(n)[i]),
        digits_value(digits_of(n)) == n,
    decreases n,
{
    if n < 10 {
        lemma_digit_char(n);
        assert(digits_of(n).drop_last() =~= Seq::<char>::empty());
        assert(digits_value(Seq::<char>::empty()) == 0);
    } else {
        lemma_digits_of(n / 10);
        lemma_digit_char(n % 10);
        let s = digits_of(n);
        assert(s.drop_last() =~= digits_of(n / 10));
        assert(s.last() == digit_char(n % 10));
        vstd::arithmetic::div_mod::lemma_fundamental_div_mod(n as int, 10);
        assert(digits_value(s) == (n / 10) * 10 + n % 10);
        assert forall|i: int| 0 <= i < s.len() implies is_digit(#[trigger] s[i]) by {
            if i < s.len() - 1 {
                assert(s[i] == digits_of(n / 10)[i]);
            }
        }
    }
}

/// Reading back the cursor text of a number gives that number.
pub proof fn lemma_decimal_round_trip(n: int)
    requires
        fits_i64(n),
    ensures
        decimal_parse(decimal_of(n)) == Some(n),
{
    let s = decimal_of(n);
    if n < 0 {
        let m = (-n) as nat;
        lemma_digits_of(m);
        assert(s.drop_first() =~= digits_of(m));
    } else {
        lemma_digits_of(n as nat);
    }
}

/// An opaque pagination cursor.
pub struct Cursor(pub String);

/// Relies on `<i64 as FromStr>::from_str` (through `str::parse`): it accepts an
/// optional sign followed by digits only, and fails on overflow.
#[verifier::external_body]
fn parse_i64(s: &str) -> (r: Option<i64>)
    ensures
        r matches Some(v) ==> decimal_parse(s@) == Some(v as int),
        r is None ==> decimal_parse(s@) is None,
{
    s.parse::<i64>().ok()
}

/// Relies on `<i64 as ToString>::to_string`: the decimal digits, with a leading `-`
/// when negative.
#[verifier::external_body]
fn i64_to_string(n: i64) -> (r: String)
    ensures
        r@ == decimal_of(n as int),
{
    n.to_string()
}

/// The decimal text of an `i64`.
pub fn decimal_string(n: i64) -> (r: String)
    ensures
        r@ == decimal_of(n as int),
{
    i64_to_string(n)
}

/// Why a cursor was refused.
#[derive(PartialEq, Eq, Structural, Clone, Copy, Debug)]
pub enum CursorError {
    /// The cursor is not the decimal text of an integer that fits in an `i64`.
    Malformed,
}

impl Cursor {
    /// A copy of the cursor.
    pub fn copy(&self) -> (r: Cursor)
        ensures
            r == *self,
    {
        Cursor(self.0.clone())
    }

    /// The cursor of page `n`.
    pub fn of_page(n: i64) -> (r: Cursor)
        ensures
            r.0@ == decimal_of(n as int),
    {
        Cursor(decimal_string(n))
    }

    /// The page number that the cursor holds.
    pub fn page_number(&self) -> (r: Result<i64, CursorError>)
        ensures
            r matches Ok(v) ==> decimal_parse(self.0@) == Some(v as int),
            r is Err ==> decimal_parse(self.0@) is None,
    {
        match parse_i64(self.0.as_str()) {
            Some(v) => Ok(v),
            None => Err(CursorError::Malformed),
        }
    }
}

} // verus!
