//! Small text helpers shared by the clipboard encoders and status messages:
//! ASCII byte/char classification, decimal rendering of counts, and the one
//! conversion from verified ASCII byte buffers to `String`.

use vstd::prelude::*;

verus! {

/// The characters of a buffer of ASCII bytes, one character per byte.
pub open spec fn chars_of_ascii(bs: Seq<u8>) -> Seq<char> {
    bs.map(|_i, b: u8| b as char)
}

/// ASCII graphic range: `!` through `~`.
pub open spec fn is_ascii_graphic_byte(b: u8) -> bool {
    0x21 <= b <= 0x7e
}

/// ASCII whitespace: space, tab, line feed, form feed, carriage return.
pub open spec fn is_ascii_whitespace_byte(b: u8) -> bool {
    b == 0x20 || b == 0x09 || b == 0x0a || b == 0x0c || b == 0x0d
}

/// Decimal digits of `n`, most significant first, as ASCII bytes.
pub open spec fn spec_decimal_digits(n: int) -> Seq<u8>
    decreases n,
{
    if n < 10 {
        seq![(0x30 + if n >= 0 { n } else { 0 }) as u8]
    } else {
        spec_decimal_digits(n / 10).push((0x30 + n % 10) as u8)
    }
}

/// Appends the decimal digits of `n` to `out`.
pub fn push_decimal_digits(n: usize, out: &mut Vec<u8>)
    ensures
        final(out)@ == old(out)@ + spec_decimal_digits(n as int),
    decreases n,
{
    if n >= 10 {
        push_decimal_digits(n / 10, out);
    }
    out.push(0x30 + (n % 10) as u8);
    proof {
        assert(out@ =~= old(out)@ + spec_decimal_digits(n as int));
    }
}

/// Decimal digits are ASCII: every byte lies between `0` and `9`.
pub proof fn lemma_decimal_digits_ascii(n: int)
    ensures
        forall|i: int|
            0 <= i < spec_decimal_digits(n).len() ==> 0x30 <= #[trigger] spec_decimal_digits(n)[i]
                <= 0x39,
    decreases n,
{
    if n >= 10 {
        lemma_decimal_digits_ascii(n / 10);
        assert(spec_decimal_digits(n) == spec_decimal_digits(n / 10).push((0x30 + n % 10) as u8));
    }
}

/// Builds a `String` from a buffer of ASCII bytes, one character per byte.
///
/// Relies on `String::from_utf8`: every sequence of bytes below 0x80 is valid
/// UTF-8 and decodes to exactly one character per byte.
#[verifier::external_body]
pub fn string_from_ascii(v: Vec<u8>) -> (r: String)
    requires
        forall|i: int| 0 <= i < v@.len() ==> v@[i] < 0x80,
    ensures
        r@ == chars_of_ascii(v@),
{
    String::from_utf8(v).unwrap_or_default()
}

/// Appends one character to a string.
///
/// Relies on `String::push`: the character is appended at the end.
#[verifier::external_body]
pub fn string_push_char(s: &mut String, c: char)
    ensures
        final(s)@ == old(s)@.push(c),
{
    s.push(c);
}

/// Removes and returns the last character of a string, if any.
///
/// Relies on `String::pop`: the last character is removed and returned;
/// an empty string stays empty and yields nothing.
#[verifier::external_body]
pub fn string_pop_char(s: &mut String) -> (r: Option<char>)
    ensures
        old(s)@.len() == 0 ==> (r is None) && final(s)@ == old(s)@,
        old(s)@.len() > 0 ==> r == Some(old(s)@.last()) && final(s)@ == old(s)@.drop_last(),
{
    s.pop()
}

} // verus!
