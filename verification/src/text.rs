use vstd::prelude::*;

verus! {

/// The decimal digit character for `n` in `[0, 10)`.
pub open spec fn dec_digit(n: int) -> char {
    if n == 0 {
        '0'
    } else if n == 1 {
        '1'
    } else if n == 2 {
        '2'
    } else if n == 3 {
        '3'
    } else if n == 4 {
        '4'
    } else if n == 5 {
        '5'
    } else if n == 6 {
        '6'
    } else if n == 7 {
        '7'
    } else if n == 8 {
        '8'
    } else {
        '9'
    }
}

/// The unpadded decimal text of an octet in `[0, 256)`.
pub open spec fn dec_u8(n: int) -> Seq<char> {
    if n < 10 {
        seq![dec_digit(n)]
    } else if n < 100 {
        seq![dec_digit(n / 10), dec_digit(n % 10)]
    } else {
        seq![dec_digit(n / 100), dec_digit((n / 10) % 10), dec_digit(n % 10)]
    }
}

/// The dotted-quad text of four octets.
pub open spec fn ipv4_text(a: int, b: int, c: int, d: int) -> Seq<char> {
    dec_u8(a) + seq!['.'] + dec_u8(b) + seq!['.'] + dec_u8(c) + seq!['.'] + dec_u8(d)
}

/// Is `s` the dotted-quad text of some four octets?
pub open spec fn is_ipv4_text(s: Seq<char>) -> bool {
    exists|a: int, b: int, c: int, d: int|
        #![auto]
        0 <= a < 256 && 0 <= b < 256 && 0 <= c < 256 && 0 <= d < 256 && s == ipv4_text(a, b, c, d)
}

/// Relies on `str`'s equality operator: true exactly when the two texts
/// hold the same characters.
#[verifier::external_body]
pub(crate) fn str_eq(a: &str, b: &str) -> (r: bool)
    ensures
        r == (a@ == b@),
{
    a == b
}

/// Relies on std's `String::push`: appends one character.
#[verifier::external_body]
pub(crate) fn push_char(s: &mut String, c: char)
    ensures
        final(s)@ == old(s)@.push(c),
{
    s.push(c);
}

} // verus!
