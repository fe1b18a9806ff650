//! Byte-level encodings used when building token-endpoint requests:
//! percent-encoding of form fields, and the base64 transfer encoding for
//! HTTP Basic credentials.

use vstd::prelude::*;

verus! {

use vstd::string::StringSliceAdditionalSpecFns;

/// Bytes that stand for themselves in a percent-encoded form field:
/// ASCII letters, digits, `-`, `.`, `_` and `~`.
pub open spec fn is_unreserved_byte(b: u8) -> bool {
    (0x41 <= b && b <= 0x5a) || (0x61 <= b && b <= 0x7a) || (0x30 <= b && b <= 0x39)
        || b == 0x2d || b == 0x2e || b == 0x5f || b == 0x7e
}

/// Upper-case hexadecimal digit of a value below 16, as an ASCII byte.
pub open spec fn spec_hex_digit(n: u8) -> u8
    recommends
        n < 16,
{
    if n < 10 {
        (0x30 + n) as u8
    } else {
        (0x37 + n) as u8
    }
}

/// Percent-encoding of one byte: an unreserved byte stands for itself,
/// every other byte becomes `%` followed by two upper-case hex digits.
pub open spec fn percent_byte(b: u8) -> Seq<u8> {
    if is_unreserved_byte(b) {
        seq![b]
    } else {
        seq![0x25u8, spec_hex_digit(b / 16), spec_hex_digit(b % 16)]
    }
}

/// Percent-encoding of a whole byte sequence.
pub open spec fn percent_encoded(bs: Seq<u8>) -> Seq<u8>
    decreases bs.len(),
{
    if bs.len() == 0 {
        Seq::empty()
    } else {
        percent_byte(bs[0]) + percent_encoded(bs.drop_first())
    }
}

/// Appending one byte to the input appends its encoding to the output.
pub proof fn lemma_percent_encoded_push(bs: Seq<u8>, b: u8)
    ensures
        percent_encoded(bs.push(b)) == percent_encoded(bs) + percent_byte(b),
    decreases bs.len(),
{
    if bs.len() == 0 {
        let l = bs.push(b);
        assert(l[0] == b);
        assert(l.drop_first() =~= Seq::<u8>::empty());
        assert(percent_encoded(Seq::<u8>::empty()) == Seq::<u8>::empty());
        assert(percent_encoded(l) == percent_byte(b) + percent_encoded(l.drop_first()));
        assert(percent_encoded(bs) == Seq::<u8>::empty());
        assert(percent_encoded(bs.push(b)) =~= percent_encoded(bs) + percent_byte(b));
    } else {
        let l = bs.push(b);
        assert(l[0] == bs[0]);
        assert(l.drop_first() =~= bs.drop_first().push(b));
        lemma_percent_encoded_push(bs.drop_first(), b);
        assert(percent_encoded(l) == percent_byte(bs[0]) + percent_encoded(l.drop_first()));
        assert(percent_encoded(l.drop_first()) == percent_encoded(bs.drop_first()) + percent_byte(
            b,
        ));
        assert(percent_encoded(bs) == percent_byte(bs[0]) + percent_encoded(bs.drop_first()));
        assert(percent_encoded(bs.push(b)) =~= percent_encoded(bs) + percent_byte(b));
    }
}

/// Runtime counterpart of `is_unreserved_byte`.
fn unreserved(b: u8) -> (r: bool)
    ensures
        r == is_unreserved_byte(b),
{
    (0x41 <= b && b <= 0x5a) || (0x61 <= b && b <= 0x7a) || (0x30 <= b && b <= 0x39)
        || b == 0x2d || b == 0x2e || b == 0x5f || b == 0x7e
}

/// Runtime counterpart of `spec_hex_digit`.
fn hex_digit(n: u8) -> (r: u8)
    requires
        n < 16,
    ensures
        r == spec_hex_digit(n),
{
    if n < 10 {
        0x30 + n
    } else {
        0x37 + n
    }
}

/// Appends the UTF-8 bytes of `s` to `out` unchanged.
pub fn append_str_bytes(out: &mut Vec<u8>, s: &str)
    ensures
        final(out)@ == old(out)@ + s.spec_bytes(),
{
    out.extend_from_slice(s.as_bytes());
}

/// Appends the percent-encoding of the UTF-8 bytes of `s` to `out`.
pub fn append_percent_encoded(out: &mut Vec<u8>, s: &str)
    ensures
        final(out)@ == old(out)@ + percent_encoded(s.spec_bytes()),
{
    let bytes = s.as_bytes();
    let n = bytes.len();
    let mut i: usize = 0;
    while i < n
        invariant
            n == bytes@.len(),
            i <= n,
            bytes@ == s.spec_bytes(),
            out@ == old(out)@ + percent_encoded(bytes@.take(i as int)),
        decreases n - i,
    {
        let b = bytes[i];
        proof {
            lemma_percent_encoded_push(bytes@.take(i as int), b);
            assert(bytes@.take(i as int).push(b) =~= bytes@.take(i as int + 1));
        }
        if unreserved(b) {
            out.push(b);
        } else {
            out.push(0x25);
            out.push(hex_digit(b / 16));
            out.push(hex_digit(b % 16));
        }
        i = i + 1;
        proof {
            assert(out@ =~= old(out)@ + percent_encoded(bytes@.take(i as int)));
        }
    }
    proof {
        assert(bytes@.take(n as int) =~= bytes@);
    }
}

/// UTF-8 encoding distributes over concatenation of character sequences.
pub proof fn lemma_encode_utf8_concat(a: Seq<char>, b: Seq<char>)
    ensures
        vstd::utf8::encode_utf8(a + b) == vstd::utf8::encode_utf8(a) + vstd::utf8::encode_utf8(b),
    decreases a.len(),
{
    if a.len() == 0 {
        assert(a + b =~= b);
        assert(vstd::utf8::encode_utf8(a) =~= Seq::<u8>::empty());
        assert(vstd::utf8::encode_utf8(a) + vstd::utf8::encode_utf8(b) =~= vstd::utf8::encode_utf8(
            b,
        ));
    } else {
        assert((a + b)[0] == a[0]);
        assert((a + b).len() != 0);
        assert((a + b).drop_first() =~= a.drop_first() + b);
        lemma_encode_utf8_concat(a.drop_first(), b);
        assert(vstd::utf8::encode_utf8(a + b) == vstd::utf8::encode_scalar(a[0] as u32)
            + vstd::utf8::encode_utf8((a + b).drop_first()));
        assert(vstd::utf8::encode_utf8(a + b) =~= vstd::utf8::encode_utf8(a)
            + vstd::utf8::encode_utf8(b));
    }
}

/// The UTF-8 encoding of a single character takes at most four bytes.
pub proof fn lemma_encode_utf8_single_len(s: Seq<char>)
    requires
        s.len() == 1,
    ensures
        vstd::utf8::encode_utf8(s).len() <= 4,
{
    assert(s.drop_first().len() == 0);
    assert(vstd::utf8::encode_utf8(s.drop_first()) =~= Seq::<u8>::empty());
    assert(vstd::utf8::encode_utf8(s) == vstd::utf8::encode_scalar(s[0] as u32)
        + vstd::utf8::encode_utf8(s.drop_first()));
}

/// The ASCII digit for a value below ten.
pub open spec fn digit_char(n: u128) -> char
    recommends
        n < 10,
{
    ((0x30 + n) as u8) as char
}

/// Decimal rendering of a number, most significant digit first.
pub open spec fn decimal_digits(n: u128) -> Seq<char>
    decreases n,
{
    if n < 10 {
        seq![digit_char(n)]
    } else {
        decimal_digits(n / 10).push(digit_char(n % 10))
    }
}

/// Relies on `String::push`: appends the given character.
#[verifier::external_body]
pub(crate) fn push_char(s: &mut String, c: char)
    ensures
        final(s)@ == old(s)@.push(c),
{
    s.push(c)
}

/// Appends the decimal rendering of `n` to `s`.
pub fn append_decimal(s: &mut String, n: u128)
    ensures
        final(s)@ == old(s)@ + decimal_digits(n),
    decreases n,
{
    if n < 10 {
        push_char(s, (0x30 + n as u8) as char);
        proof {
            assert(s@ =~= old(s)@ + decimal_digits(n));
        }
    } else {
        append_decimal(s, n / 10);
        push_char(s, (0x30 + (n % 10) as u8) as char);
        proof {
            assert((0x30 + (n % 10) as u8) as char == digit_char(n % 10));
            assert(s@ =~= old(s)@ + decimal_digits(n));
        }
    }
}

/// What `base64::encode` returns for a given byte sequence.
pub uninterp spec fn base64_of(bytes: Seq<u8>) -> Seq<char>;

/// Relies on `base64::encode` (standard alphabet, with padding): the result
/// is a function of the input bytes alone, four output characters for every
/// three input bytes, rounded up.  The length bound keeps the encoder's
/// output-size computation inside `usize`.
#[verifier::external_body]
pub(crate) fn base64_encode(s: &str) -> (r: String)
    requires
        s.spec_bytes().len() <= 0x1000_0000,
    ensures
        r@ == base64_of(s.spec_bytes()),
        r@.len() == (s.spec_bytes().len() + 2) / 3 * 4,
{
    base64::encode(s)
}

} // verus!
