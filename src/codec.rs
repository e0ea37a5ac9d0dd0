//! The wire codec: replies decoded from bytes, and the command lines the
//! core sends.
use vstd::prelude::*;
use vstd::utf8;
use crate::stream::{search, RedisStream};
use crate::text::{byte_decimal, byte_hex, utf8_to_string};
use crate::types::{
    kind_of_code, Fault, IoErrorKind, RedisError, RedisValue, Value, REDIS_TYPE_ARRAY,
    REDIS_TYPE_BULK_STRING, REDIS_TYPE_ERROR, REDIS_TYPE_INTEGER, REDIS_TYPE_STRING,
};

verus! {

/// Carriage return and line feed.
pub open spec fn crlf() -> Seq<u8> {
    seq![13u8, 10u8]
}

/// Position of the first CRLF at or after `i`.
pub open spec fn line_end(s: Seq<u8>, i: int) -> Option<int> {
    crate::stream::find_from(s, crlf(), i)
}

/// Whether `b` is an ASCII digit.
pub open spec fn is_digit(b: u8) -> bool {
    48 <= b <= 57
}

/// Whether `d` is a non-empty run of digits.
pub open spec fn all_digits(d: Seq<u8>) -> bool {
    d.len() > 0 && forall|i: int| 0 <= i < d.len() ==> is_digit(#[trigger] d[i])
}

/// The number that a run of digits spells.
pub open spec fn digits_value(d: Seq<u8>) -> int
    decreases d.len(),
{
    if d.len() == 0 {
        0
    } else {
        digits_value(d.drop_last()) * 10 + (d.last() - 48)
    }
}

/// The signed integer that a line spells: an optional `-` or `+`, then digits.
pub open spec fn parse_int(l: Seq<u8>) -> Option<int> {
    if l.len() > 0 && (l[0] == 45 || l[0] == 43) {
        if all_digits(l.skip(1)) {
            Some(
                if l[0] == 45 {
                    -digits_value(l.skip(1))
                } else {
                    digits_value(l.skip(1))
                },
            )
        } else {
            None
        }
    } else if all_digits(l) {
        Some(digits_value(l))
    } else {
        None
    }
}

/// Whether `i` fits in an `isize`.
pub open spec fn fits_isize(i: int) -> bool {
    isize::MIN <= i <= isize::MAX
}

/// The integer a line holds, when it spells one that fits in an `isize`.
pub open spec fn int_value(l: Seq<u8>) -> Option<int> {
    match parse_int(l) {
        Some(i) => if fits_isize(i) {
            Some(i)
        } else {
            None
        },
        None => None,
    }
}

/// The integer line that starts at `p`: `None` while its CRLF has not
/// arrived, else its value (if valid) and the position after the CRLF.
pub open spec fn int_line(s: Seq<u8>, p: int) -> Option<(Option<int>, int)> {
    match line_end(s, p) {
        None => None,
        Some(e) => Some((int_value(s.subrange(p, e)), e + 2)),
    }
}

/// One step of decoding.
pub enum Step {
    /// A reply and the position after it.
    Done(Value, int),
    /// An error and the position after what it consumed.
    Fail(Fault, int),
    /// More bytes are needed.
    Incomplete,
}

/// A line that is not valid UTF-8.
pub open spec fn invalid_utf8_fault() -> Fault {
    crate::types::protocol_fault("Invalid UTF-8 sequence"@)
}

/// A length or an integer that does not parse.
pub open spec fn bad_integer_fault() -> Fault {
    crate::types::protocol_fault("Invalid integer"@)
}

/// A bulk string whose body is not followed by CRLF.
pub open spec fn missing_crlf_fault() -> Fault {
    crate::types::protocol_fault("Bulk string not followed by CRLF"@)
}

/// A type tag that the protocol does not know.
pub open spec fn unknown_tag_fault(tag: u8) -> Fault {
    crate::types::protocol_fault("Unknow type '0x"@ + crate::text::ascii_chars(crate::text::hex_digits(tag)) + "'"@)
}

/// The error that an error reply's line stands for: the text up to the
/// first space is the code, which picks the kind, and the rest (from the
/// space on) the message; with no space the whole line is the message.
pub open spec fn error_reply_fault(line: Seq<u8>) -> Fault {
    match crate::stream::find_from(line, seq![32u8], 0) {
        None => if utf8::valid_utf8(line) {
            crate::types::message_fault(utf8::decode_utf8(line))
        } else {
            invalid_utf8_fault()
        },
        Some(i) => if utf8::valid_utf8(line.skip(i)) {
            Fault { kind: crate::types::code_kind(line.take(i)), io: None, message: utf8::decode_utf8(line.skip(i)) }
        } else {
            invalid_utf8_fault()
        },
    }
}

/// Decodes the reply that starts at `p`.
pub open spec fn decode_value(s: Seq<u8>, p: int) -> Step
    decreases s.len() - p, 0int, 0int,
{
    if p < 0 || p >= s.len() {
        Step::Incomplete
    } else {
        let tag = s[p];
        if tag == REDIS_TYPE_STRING {
            match line_end(s, p + 1) {
                None => Step::Incomplete,
                Some(e) => if utf8::valid_utf8(s.subrange(p + 1, e)) {
                    Step::Done(Value::Simple(utf8::decode_utf8(s.subrange(p + 1, e))), e + 2)
                } else {
                    Step::Fail(invalid_utf8_fault(), e + 2)
                },
            }
        } else if tag == REDIS_TYPE_ERROR {
            match line_end(s, p + 1) {
                None => Step::Incomplete,
                Some(e) => Step::Fail(error_reply_fault(s.subrange(p + 1, e)), e + 2),
            }
        } else if tag == REDIS_TYPE_INTEGER {
            match int_line(s, p + 1) {
                None => Step::Incomplete,
                Some((None, q)) => Step::Fail(bad_integer_fault(), q),
                Some((Some(i), q)) => Step::Done(Value::Integer(i), q),
            }
        } else if tag == REDIS_TYPE_BULK_STRING {
            match int_line(s, p + 1) {
                None => Step::Incomplete,
                Some((None, q)) => Step::Fail(bad_integer_fault(), q),
                Some((Some(n), q)) => if n < 0 {
                    Step::Done(Value::Nil, q)
                } else if q + n + 2 > s.len() {
                    Step::Incomplete
                } else if s[q + n] == 13 && s[q + n + 1] == 10 {
                    Step::Done(Value::Bulk(s.subrange(q, q + n)), q + n + 2)
                } else {
                    Step::Fail(missing_crlf_fault(), q + n + 2)
                },
            }
        } else if tag == REDIS_TYPE_ARRAY {
            match int_line(s, p + 1) {
                None => Step::Incomplete,
                Some((None, q)) => Step::Fail(bad_integer_fault(), q),
                Some((Some(n), q)) => if n < 0 {
                    Step::Done(Value::Nil, q)
                } else if q <= p || q > s.len() {
                    Step::Incomplete
                } else {
                    decode_items(s, q, n, Seq::empty())
                },
            }
        } else {
            Step::Fail(unknown_tag_fault(tag), p + 1)
        }
    }
}

/// Decodes `n` more elements of an array from `p`, after the elements `acc`.
pub open spec fn decode_items(s: Seq<u8>, p: int, n: int, acc: Seq<Value>) -> Step
    decreases s.len() - p, 1int, n,
{
    if n <= 0 {
        Step::Done(Value::Array(acc), p)
    } else if p < 0 || p >= s.len() {
        Step::Incomplete
    } else {
        match decode_value(s, p) {
            Step::Done(v, q) => if p < q <= s.len() {
                decode_items(s, q, n - 1, acc.push(v))
            } else {
                Step::Incomplete
            },
            other => other,
        }
    }
}


/// A step of decoding, as computed.
pub enum Decoded {
    Done(RedisValue, usize),
    Fail(RedisError, usize),
    Incomplete,
}

/// `d` is the computed form of `st`.
pub open spec fn decoded_is(d: Decoded, st: Step) -> bool {
    match d {
        Decoded::Done(v, q) => st matches Step::Done(w, q2) && v@ == w && q as int == q2,
        Decoded::Fail(e, q) => st matches Step::Fail(f, q2) && e@ == f && q as int == q2,
        Decoded::Incomplete => st is Incomplete,
    }
}

/// What a computed step consumed lies after `p` and within `len`.
pub open spec fn advances(d: Decoded, p: int, len: int) -> bool {
    match d {
        Decoded::Done(_, q) => p < q <= len,
        Decoded::Fail(_, q) => p < q <= len,
        Decoded::Incomplete => true,
    }
}

/// The models of a sequence of replies.
pub open spec fn values_view(items: Seq<RedisValue>) -> Seq<Value> {
    Seq::new(items.len(), |i: int| items[i]@)
}

/// Position of the first CRLF at or after `p`.
fn find_line_end(s: &[u8], p: usize) -> (r: Option<usize>)
    ensures
        match line_end(s@, p as int) {
            Some(i) => r == Some(i as usize) && p <= i && i + 2 <= s@.len() && i + 2 <= usize::MAX,
            None => r is None,
        },
{
    if p > s.len() {
        return None;
    }
    let pat: [u8; 2] = [13u8, 10u8];
    let pat_slice = pat.as_slice();
    assert(pat_slice@ =~= crlf());
    proof {
        crate::stream::lemma_find_from(s@, crlf(), p as int);
    }
    search(s, pat_slice, p)
}

/// Digits values never shrink as digits are added.
proof fn lemma_digits_grow(d: Seq<u8>, k: int)
    requires
        0 <= k <= d.len(),
        forall|i: int| 0 <= i < d.len() ==> is_digit(#[trigger] d[i]),
    ensures
        0 <= digits_value(d.take(k)) <= digits_value(d),
    decreases d.len(),
{
    if k == d.len() {
        assert(d.take(k) =~= d);
        lemma_digits_nonneg(d);
    } else {
        lemma_digits_grow(d.drop_last(), k);
        assert(d.drop_last().take(k) =~= d.take(k));
    }
}

/// Digits values are not negative.
proof fn lemma_digits_nonneg(d: Seq<u8>)
    requires
        forall|i: int| 0 <= i < d.len() ==> is_digit(#[trigger] d[i]),
    ensures
        digits_value(d) >= 0,
    decreases d.len(),
{
    if d.len() > 0 {
        lemma_digits_nonneg(d.drop_last());
    }
}

/// The integer that `s[from..to]` spells, when it fits in an `isize`.
pub fn parse_isize(s: &[u8], from: usize, to: usize) -> (r: Option<isize>)
    requires
        from <= to <= s@.len(),
    ensures
        r == (match int_value(s@.subrange(from as int, to as int)) {
            Some(i) => Some(i as isize),
            None => None::<isize>,
        }),
{
    let ghost l = s@.subrange(from as int, to as int);
    let mut i = from;
    let mut negative = false;
    if from < to && (s[from] == 45 || s[from] == 43) {
        negative = s[from] == 45;
        i = from + 1;
    }
    let start = i;
    let ghost d = s@.subrange(start as int, to as int);
    assert(parse_int(l) == (if all_digits(d) {
        Some(
            if negative {
                -digits_value(d)
            } else {
                digits_value(d)
            },
        )
    } else {
        None::<int>
    })) by {
        if l.len() > 0 {
            assert(l[0] == s@[from as int]);
        }
        if from < to && (s@[from as int] == 45 || s@[from as int] == 43) {
            assert(l.skip(1) =~= d);
        } else {
            assert(l =~= d);
        }
    }
    if start == to {
        return None;
    }
    let mut acc: u128 = 0;
    let limit: u128 = 18446744073709551616;
    while i < to
        invariant
            start <= i <= to <= s@.len(),
            start < to,
            d == s@.subrange(start as int, to as int),
            forall|j: int| start <= j < i ==> is_digit(#[trigger] s@[j]),
            acc as int == digits_value(s@.subrange(start as int, i as int)),
            acc <= limit,
            limit == 18446744073709551616,
            l == s@.subrange(from as int, to as int),
            parse_int(l) == (if all_digits(d) {
                Some(
                    if negative {
                        -digits_value(d)
                    } else {
                        digits_value(d)
                    },
                )
            } else {
                None::<int>
            }),
        decreases to - i,
    {
        let c = s[i];
        if c < 48 || c > 57 {
            proof {
                assert(d[i - start] == c);
                assert(!all_digits(d));
            }
            return None;
        }
        let ghost prev = s@.subrange(start as int, i as int);
        acc = acc * 10 + (c - 48) as u128;
        proof {
            assert(s@.subrange(start as int, i + 1).drop_last() =~= prev);
        }
        i = i + 1;
        if acc > limit {
            proof {
                assert(d.take(i - start) =~= s@.subrange(start as int, i as int));
                if all_digits(d) {
                    lemma_digits_grow(d, i - start);
                }
            }
            return None;
        }
    }
    assert(d =~= s@.subrange(start as int, i as int));
    let v: i128 = if negative {
        -(acc as i128)
    } else {
        acc as i128
    };
    if v < isize::MIN as i128 || v > isize::MAX as i128 {
        None
    } else {
        Some(v as isize)
    }
}

/// The integer line that starts at `p`.
fn read_int_line(s: &[u8], p: usize) -> (r: Option<(Option<isize>, usize)>)
    requires
        p <= s@.len(),
    ensures
        match int_line(s@, p as int) {
            None => r is None,
            Some((v, q)) => r matches Some((w, q2)) && q2 as int == q && p < q2 <= s@.len()
                && match v {
                Some(i) => w == Some(i as isize),
                None => w is None,
            },
        },
{
    match find_line_end(s, p) {
        None => None,
        Some(e) => {
            let v = parse_isize(s, p, e);
            Some((v, e + 2))
        },
    }
}

/// The error that an error reply's line `s[from..to]` stands for.
fn error_from_line(s: &[u8], from: usize, to: usize) -> (r: RedisError)
    requires
        from <= to <= s@.len(),
    ensures
        r@ == error_reply_fault(s@.subrange(from as int, to as int)),
{
    let line = crate::stream::copy_range(s, from, to);
    let space: [u8; 1] = [32u8];
    assert(space@ =~= seq![32u8]);
    proof {
        crate::stream::lemma_find_from(line@, seq![32u8], 0);
    }
    match search(line.as_slice(), space.as_slice(), 0) {
        None => match utf8_to_string(line.as_slice()) {
            Some(m) => RedisError::from_message(m.as_str()),
            None => RedisError::from_protocol("Invalid UTF-8 sequence"),
        },
        Some(i) => {
            let code = crate::stream::copy_range(line.as_slice(), 0, i);
            let rest = crate::stream::copy_range(line.as_slice(), i, line.len());
            assert(code@ =~= line@.take(i as int));
            assert(rest@ =~= line@.skip(i as int));
            match utf8_to_string(rest.as_slice()) {
                Some(m) => RedisError::from_parts(kind_of_code(code.as_slice()), m),
                None => RedisError::from_protocol("Invalid UTF-8 sequence"),
            }
        },
    }
}

/// The error for an unknown type tag.
fn unknown_tag_error(tag: u8) -> (r: RedisError)
    ensures
        r@ == unknown_tag_fault(tag),
{
    let m = "Unknow type '0x".to_owned().concat(byte_hex(tag).as_str()).concat("'");
    RedisError::from_protocol(m.as_str())
}

/// Decodes the reply that starts at `p` of `s`.
pub fn decode_value_at(s: &[u8], p: usize) -> (r: Decoded)
    requires
        p <= s@.len(),
    ensures
        decoded_is(r, decode_value(s@, p as int)),
        advances(r, p as int, s@.len() as int),
    decreases s@.len() - p, 1int,
{
    if p >= s.len() {
        return Decoded::Incomplete;
    }
    let tag = s[p];
    if tag == REDIS_TYPE_STRING {
        match find_line_end(s, p + 1) {
            None => Decoded::Incomplete,
            Some(e) => {
                let line = crate::stream::copy_range(s, p + 1, e);
                match utf8_to_string(line.as_slice()) {
                    Some(text) => Decoded::Done(RedisValue::String(text), e + 2),
                    None => Decoded::Fail(RedisError::from_protocol("Invalid UTF-8 sequence"), e + 2),
                }
            },
        }
    } else if tag == REDIS_TYPE_ERROR {
        match find_line_end(s, p + 1) {
            None => Decoded::Incomplete,
            Some(e) => Decoded::Fail(error_from_line(s, p + 1, e), e + 2),
        }
    } else if tag == REDIS_TYPE_INTEGER {
        match read_int_line(s, p + 1) {
            None => Decoded::Incomplete,
            Some((None, q)) => Decoded::Fail(RedisError::from_protocol("Invalid integer"), q),
            Some((Some(i), q)) => Decoded::Done(RedisValue::Integer(i), q),
        }
    } else if tag == REDIS_TYPE_BULK_STRING {
        match read_int_line(s, p + 1) {
            None => Decoded::Incomplete,
            Some((None, q)) => Decoded::Fail(RedisError::from_protocol("Invalid integer"), q),
            Some((Some(n), q)) => {
                if n < 0 {
                    Decoded::Done(RedisValue::Nil, q)
                } else if s.len() - q < 2 || n as usize > s.len() - q - 2 {
                    Decoded::Incomplete
                } else {
                    let end = q + n as usize;
                    if s[end] == 13 && s[end + 1] == 10 {
                        let body = crate::stream::copy_range(s, q, end);
                        Decoded::Done(RedisValue::BulkString(body), end + 2)
                    } else {
                        Decoded::Fail(
                            RedisError::from_protocol("Bulk string not followed by CRLF"),
                            end + 2,
                        )
                    }
                }
            },
        }
    } else if tag == REDIS_TYPE_ARRAY {
        match read_int_line(s, p + 1) {
            None => Decoded::Incomplete,
            Some((None, q)) => Decoded::Fail(RedisError::from_protocol("Invalid integer"), q),
            Some((Some(n), q)) => {
                if n < 0 {
                    Decoded::Done(RedisValue::Nil, q)
                } else {
                    decode_items_at(s, p, q, n as usize)
                }
            },
        }
    } else {
        Decoded::Fail(unknown_tag_error(tag), p + 1)
    }
}

/// Decodes the `n` elements of the array whose tag is at `start` and whose
/// elements begin at `q`.
fn decode_items_at(s: &[u8], start: usize, q: usize, n: usize) -> (r: Decoded)
    requires
        start < q <= s@.len(),
    ensures
        decoded_is(r, decode_items(s@, q as int, n as int, Seq::empty())),
        advances(r, start as int, s@.len() as int),
    decreases s@.len() - start, 0int,
{
    let mut items: Vec<RedisValue> = Vec::new();
    let mut pos = q;
    let mut i: usize = 0;
    assert(values_view(items@) =~= Seq::<Value>::empty());
    while i < n
        invariant
            start < q <= pos <= s@.len(),
            i <= n,
            decode_items(s@, q as int, n as int, Seq::empty()) == decode_items(
                s@,
                pos as int,
                n - i,
                values_view(items@),
            ),
        decreases n - i,
    {
        if pos >= s.len() {
            return Decoded::Incomplete;
        }
        match decode_value_at(s, pos) {
            Decoded::Done(v, next) => {
                let ghost before = items@;
                items.push(v);
                assert(values_view(items@) =~= values_view(before).push(items@.last()@));
                pos = next;
            },
            Decoded::Fail(e, at) => {
                return Decoded::Fail(e, at);
            },
            Decoded::Incomplete => {
                return Decoded::Incomplete;
            },
        }
        i = i + 1;
    }
    let ghost view = values_view(items@);
    let r = RedisValue::Array(items);
    assert(r@ == Value::Array(view)) by {
        assert(r@->Array_0 =~= view);
    }
    Decoded::Done(r, pos)
}


/// The name of the type that a tag announces.
pub open spec fn what_is_text(tag: u8) -> Seq<char> {
    if tag == REDIS_TYPE_STRING {
        "String"@
    } else if tag == REDIS_TYPE_BULK_STRING {
        "BulkString"@
    } else if tag == REDIS_TYPE_ARRAY {
        "Array"@
    } else if tag == REDIS_TYPE_ERROR {
        "Error"@
    } else if tag == REDIS_TYPE_INTEGER {
        "Integer"@
    } else {
        "Unknow '0x"@ + crate::text::ascii_chars(crate::text::decimal_digits(tag as nat)) + "'"@
    }
}

/// The start of the message for a reply of another type than `expected`.
pub open spec fn expected_text(expected: u8) -> Seq<char> {
    if expected == REDIS_TYPE_STRING {
        "Not a string but a "@
    } else if expected == REDIS_TYPE_INTEGER {
        "Not an integer but a "@
    } else if expected == REDIS_TYPE_BULK_STRING {
        "Not a bulk string but a "@
    } else {
        "Not an array but a "@
    }
}

/// The tags of the four replies that a reader can ask for.
pub open spec fn is_reply_tag(tag: u8) -> bool {
    tag == REDIS_TYPE_STRING || tag == REDIS_TYPE_INTEGER || tag == REDIS_TYPE_BULK_STRING || tag
        == REDIS_TYPE_ARRAY
}

/// Reading a reply of type `expected` from the bytes `s`: an error reply is
/// decoded whatever was expected; a reply of another type consumes its tag
/// and fails.
pub open spec fn reply_step(s: Seq<u8>, expected: u8) -> Step {
    if s.len() == 0 {
        Step::Incomplete
    } else if s[0] != REDIS_TYPE_ERROR && s[0] != expected {
        Step::Fail(crate::types::message_fault(expected_text(expected) + what_is_text(s[0])), 1)
    } else {
        decode_value(s, 0)
    }
}

/// `r` and the pending bytes `rest` are what reading a reply of type
/// `expected` from the bytes `s` gives; while the reply is incomplete,
/// nothing is consumed and the read fails with `NoDataAvailable` or with
/// the socket's failure.
pub open spec fn read_outcome(s: Seq<u8>, expected: u8, r: Result<Value, Fault>, rest: Seq<u8>) -> bool {
    match reply_step(s, expected) {
        Step::Done(v, n) => r == Ok::<Value, Fault>(v) && rest == s.skip(n),
        Step::Fail(f, n) => r == Err::<Value, Fault>(f) && rest == s.skip(n),
        Step::Incomplete => r matches Err(e) && rest == s && (e == crate::types::no_data_fault() || exists|
            k: IoErrorKind,
        | e == crate::types::io_fault(k)),
    }
}

/// The model of a reply read.
pub open spec fn value_result(r: Result<RedisValue, RedisError>) -> Result<Value, Fault> {
    match r {
        Ok(v) => Ok(v@),
        Err(e) => Err(e@),
    }
}

/// The model of a simple string read.
pub open spec fn string_result(r: Result<String, RedisError>) -> Result<Value, Fault> {
    match r {
        Ok(v) => Ok(Value::Simple(v@)),
        Err(e) => Err(e@),
    }
}

/// The model of an integer read.
pub open spec fn integer_result(r: Result<isize, RedisError>) -> Result<Value, Fault> {
    match r {
        Ok(i) => Ok(Value::Integer(i as int)),
        Err(e) => Err(e@),
    }
}

/// The model of a bulk string read: `None` is the null bulk string.
pub open spec fn bulk_result(r: Result<Option<Vec<u8>>, RedisError>) -> Result<Value, Fault> {
    match r {
        Ok(Some(b)) => Ok(Value::Bulk(b@)),
        Ok(None) => Ok(Value::Nil),
        Err(e) => Err(e@),
    }
}

/// The name of the type that a tag announces.
pub fn what_is(tag: u8) -> (r: String)
    ensures
        r@ == what_is_text(tag),
{
    if tag == REDIS_TYPE_STRING {
        "String".to_owned()
    } else if tag == REDIS_TYPE_BULK_STRING {
        "BulkString".to_owned()
    } else if tag == REDIS_TYPE_ARRAY {
        "Array".to_owned()
    } else if tag == REDIS_TYPE_ERROR {
        "Error".to_owned()
    } else if tag == REDIS_TYPE_INTEGER {
        "Integer".to_owned()
    } else {
        "Unknow '0x".to_owned().concat(byte_decimal(tag).as_str()).concat("'")
    }
}

/// Decodes a reply of type `expected` from the start of `s`.
pub fn decode_reply(s: &[u8], expected: u8) -> (r: Decoded)
    ensures
        decoded_is(r, reply_step(s@, expected)),
        advances(r, 0, s@.len() as int),
{
    if s.len() == 0 {
        Decoded::Incomplete
    } else if s[0] != REDIS_TYPE_ERROR && s[0] != expected {
        let start = if expected == REDIS_TYPE_STRING {
            "Not a string but a "
        } else if expected == REDIS_TYPE_INTEGER {
            "Not an integer but a "
        } else if expected == REDIS_TYPE_BULK_STRING {
            "Not a bulk string but a "
        } else {
            "Not an array but a "
        };
        let m = start.to_owned().concat(what_is(s[0]).as_str());
        Decoded::Fail(RedisError::from_message(m.as_str()), 1)
    } else {
        decode_value_at(s, 0)
    }
}

/// Reads a reply of type `expected`, receiving once when the pending bytes
/// do not hold it whole.
fn read_reply<S: RedisStream>(stream: &mut S, expected: u8) -> (r: Result<RedisValue, RedisError>)
    ensures
        old(stream).peer_closed() && crate::codec::reply_step(old(stream).pending(), expected) is Incomplete
            ==> value_result(r) == Err::<Value, Fault>(crate::types::io_fault(IoErrorKind::BrokenPipe)),
        final(stream).sent() == old(stream).sent(),
        !(reply_step(old(stream).pending(), expected) is Incomplete) ==> read_outcome(
            old(stream).pending(),
            expected,
            value_result(r),
            final(stream).pending(),
        ),
        exists|sent: Seq<u8>|
            read_outcome(
                old(stream).pending() + sent,
                expected,
                value_result(r),
                final(stream).pending(),
            ),
{
    let mut step = decode_reply(stream.buffered(), expected);
    let ghost first = stream.pending();
    if matches!(step, Decoded::Incomplete) {
        match stream.fill() {
            Err(k) => {
                assert(first + Seq::<u8>::empty() =~= first);
                return Err(RedisError::from_io_error(k));
            },
            Ok(false) => {
                assert(first + Seq::<u8>::empty() =~= first);
                return Err(RedisError::from_no_data());
            },
            Ok(true) => {
                step = decode_reply(stream.buffered(), expected);
            },
        }
    }
    let ghost now = stream.pending();
    let ghost sent = now.skip(first.len() as int);
    assert(first + sent =~= now);
    assert(!(reply_step(first, expected) is Incomplete) ==> now == first);
    match step {
        Decoded::Done(v, n) => {
            stream.consume(n);
            Ok(v)
        },
        Decoded::Fail(e, n) => {
            stream.consume(n);
            Err(e)
        },
        Decoded::Incomplete => Err(RedisError::from_no_data()),
    }
}


/// Reads a simple string reply; an error reply is returned as the error.
pub fn read_strict_string<S: RedisStream>(stream: &mut S) -> (r: Result<String, RedisError>)
    ensures
        old(stream).peer_closed() && crate::codec::reply_step(old(stream).pending(), REDIS_TYPE_STRING) is Incomplete
            ==> string_result(r) == Err::<Value, Fault>(crate::types::io_fault(IoErrorKind::BrokenPipe)),
        final(stream).sent() == old(stream).sent(),
        !(reply_step(old(stream).pending(), REDIS_TYPE_STRING) is Incomplete) ==> read_outcome(
            old(stream).pending(),
            REDIS_TYPE_STRING,
            string_result(r),
            final(stream).pending(),
        ),
        exists|sent: Seq<u8>|
            read_outcome(
                old(stream).pending() + sent,
                REDIS_TYPE_STRING,
                string_result(r),
                final(stream).pending(),
            ),
{
    match read_reply(stream, REDIS_TYPE_STRING) {
        Ok(RedisValue::String(text)) => Ok(text),
        Ok(_) => Err(RedisError::from_message("Not a string")),
        Err(e) => Err(e),
    }
}

/// Reads an integer reply; an error reply is returned as the error.
pub fn read_integer<S: RedisStream>(stream: &mut S) -> (r: Result<isize, RedisError>)
    ensures
        old(stream).peer_closed() && crate::codec::reply_step(old(stream).pending(), REDIS_TYPE_INTEGER) is Incomplete
            ==> integer_result(r) == Err::<Value, Fault>(crate::types::io_fault(IoErrorKind::BrokenPipe)),
        final(stream).sent() == old(stream).sent(),
        !(reply_step(old(stream).pending(), REDIS_TYPE_INTEGER) is Incomplete) ==> read_outcome(
            old(stream).pending(),
            REDIS_TYPE_INTEGER,
            integer_result(r),
            final(stream).pending(),
        ),
        exists|sent: Seq<u8>|
            read_outcome(
                old(stream).pending() + sent,
                REDIS_TYPE_INTEGER,
                integer_result(r),
                final(stream).pending(),
            ),
{
    match read_reply(stream, REDIS_TYPE_INTEGER) {
        Ok(RedisValue::Integer(i)) => Ok(i),
        Ok(_) => Err(RedisError::from_message("Not an integer")),
        Err(e) => Err(e),
    }
}

/// Reads a bulk string reply: `None` for the null bulk string; an error
/// reply is returned as the error.
pub fn read_bulk_string<S: RedisStream>(stream: &mut S) -> (r: Result<Option<Vec<u8>>, RedisError>)
    ensures
        old(stream).peer_closed() && crate::codec::reply_step(old(stream).pending(), REDIS_TYPE_BULK_STRING) is Incomplete
            ==> bulk_result(r) == Err::<Value, Fault>(crate::types::io_fault(IoErrorKind::BrokenPipe)),
        final(stream).sent() == old(stream).sent(),
        !(reply_step(old(stream).pending(), REDIS_TYPE_BULK_STRING) is Incomplete) ==> read_outcome(
            old(stream).pending(),
            REDIS_TYPE_BULK_STRING,
            bulk_result(r),
            final(stream).pending(),
        ),
        exists|sent: Seq<u8>|
            read_outcome(
                old(stream).pending() + sent,
                REDIS_TYPE_BULK_STRING,
                bulk_result(r),
                final(stream).pending(),
            ),
{
    match read_reply(stream, REDIS_TYPE_BULK_STRING) {
        Ok(RedisValue::BulkString(b)) => Ok(Some(b)),
        Ok(RedisValue::Nil) => Ok(None),
        Ok(_) => Err(RedisError::from_message("Not a bulk string")),
        Err(e) => Err(e),
    }
}

/// Reads an array reply, `Nil` for the null array; an error reply,
/// whether it stands for the array or for one of its elements, is returned
/// as the error.
pub fn read_array<S: RedisStream>(stream: &mut S) -> (r: Result<RedisValue, RedisError>)
    ensures
        old(stream).peer_closed() && crate::codec::reply_step(old(stream).pending(), REDIS_TYPE_ARRAY) is Incomplete
            ==> value_result(r) == Err::<Value, Fault>(crate::types::io_fault(IoErrorKind::BrokenPipe)),
        final(stream).sent() == old(stream).sent(),
        !(reply_step(old(stream).pending(), REDIS_TYPE_ARRAY) is Incomplete) ==> read_outcome(
            old(stream).pending(),
            REDIS_TYPE_ARRAY,
            value_result(r),
            final(stream).pending(),
        ),
        exists|sent: Seq<u8>|
            read_outcome(
                old(stream).pending() + sent,
                REDIS_TYPE_ARRAY,
                value_result(r),
                final(stream).pending(),
            ),
{
    read_reply(stream, REDIS_TYPE_ARRAY)
}

} // verus!
