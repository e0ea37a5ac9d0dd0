//! Text helpers: decimal and hexadecimal renderings, and strings made of
//! bytes.
use vstd::prelude::*;
use vstd::utf8;

verus! {

broadcast use vstd::utf8::encode_utf8_valid_utf8, vstd::utf8::encode_utf8_decode_utf8;

/// The characters that ASCII bytes stand for.
pub open spec fn ascii_chars(b: Seq<u8>) -> Seq<char> {
    Seq::new(b.len(), |i: int| b[i] as char)
}

/// Whether every byte is ASCII.
pub open spec fn all_ascii(b: Seq<u8>) -> bool {
    forall|i: int| 0 <= i < b.len() ==> b[i] < 128
}

/// The decimal digits of `n`, most significant first, without leading zeros.
pub open spec fn decimal_digits(n: nat) -> Seq<u8>
    decreases n,
{
    if n < 10 {
        seq![(48 + n) as u8]
    } else {
        decimal_digits(n / 10).push((48 + n % 10) as u8)
    }
}

/// The lowercase hexadecimal digit of `n`.
pub open spec fn hex_digit(n: u8) -> u8 {
    if n < 10 {
        (48 + n) as u8
    } else {
        (87 + n) as u8
    }
}

/// The two lowercase hexadecimal digits of `b`.
pub open spec fn hex_digits(b: u8) -> Seq<u8> {
    seq![hex_digit(b / 16), hex_digit(b % 16)]
}

/// Decimal digits are ASCII digits.
pub proof fn lemma_decimal_digits(n: nat)
    ensures
        decimal_digits(n).len() > 0,
        forall|i: int| 0 <= i < decimal_digits(n).len() ==> 48 <= #[trigger] decimal_digits(n)[i] <= 57,
    decreases n,
{
    if n >= 10 {
        lemma_decimal_digits(n / 10);
    }
}

/// Relies on std::str::from_utf8: it accepts exactly the valid UTF-8 byte
/// sequences and decodes them.
#[verifier::external_body]
pub(crate) fn utf8_to_string(b: &[u8]) -> (r: Option<String>)
    ensures
        r is Some <==> utf8::valid_utf8(b@),
        r matches Some(s) ==> s@ == utf8::decode_utf8(b@),
{
    match std::str::from_utf8(b) {
        Ok(s) => Some(s.to_owned()),
        Err(_) => None,
    }
}

/// What `String::from_utf8_lossy` makes of `b`.
pub uninterp spec fn lossy_utf8(b: Seq<u8>) -> Seq<char>;

/// Relies on String::from_utf8_lossy: valid UTF-8 is decoded as it is, and
/// the result depends on the bytes alone.
#[verifier::external_body]
pub(crate) fn utf8_lossy(b: &[u8]) -> (r: String)
    ensures
        r@ == lossy_utf8(b@),
        utf8::valid_utf8(b@) ==> r@ == utf8::decode_utf8(b@),
{
    String::from_utf8_lossy(b).into_owned()
}

/// The string that ASCII bytes spell.
pub fn ascii_text(b: &[u8]) -> (r: String)
    requires
        all_ascii(b@),
    ensures
        r@ == ascii_chars(b@),
{
    let ghost chars = ascii_chars(b@);
    proof {
        assert(utf8::is_ascii_chars(chars));
        vstd::utf8::is_ascii_chars_encode_utf8(chars);
        assert forall|i: int| 0 <= i < b@.len() implies utf8::encode_utf8(chars)[i] == b@[i] by {
            assert(chars[i] as u8 == b@[i]);
        }
        assert(utf8::encode_utf8(chars) =~= b@);
    }
    utf8_to_string(b).unwrap()
}

/// Appends the decimal digits of `n`.
pub fn push_decimal(out: &mut Vec<u8>, n: u64)
    ensures
        final(out)@ == old(out)@ + decimal_digits(n as nat),
    decreases n,
{
    if n >= 10 {
        push_decimal(out, n / 10);
    }
    out.push(48 + (n % 10) as u8);
    assert(final(out)@ =~= old(out)@ + decimal_digits(n as nat));
}

/// The decimal rendering of a byte.
pub fn byte_decimal(b: u8) -> (r: String)
    ensures
        r@ == ascii_chars(decimal_digits(b as nat)),
{
    let mut digits: Vec<u8> = Vec::new();
    push_decimal(&mut digits, b as u64);
    proof {
        lemma_decimal_digits(b as nat);
        assert(digits@ =~= decimal_digits(b as nat));
    }
    ascii_text(digits.as_slice())
}

/// The two-digit hexadecimal rendering of a byte.
pub fn byte_hex(b: u8) -> (r: String)
    ensures
        r@ == ascii_chars(hex_digits(b)),
{
    let hi = b / 16;
    let lo = b % 16;
    let h = if hi < 10 {
        48 + hi
    } else {
        87 + hi
    };
    let l = if lo < 10 {
        48 + lo
    } else {
        87 + lo
    };
    let digits: [u8; 2] = [h, l];
    assert(digits@ =~= hex_digits(b));
    ascii_text(digits.as_slice())
}

} // verus!
