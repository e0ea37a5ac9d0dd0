//! The encoding of replies, and the law that decoding an encoded reply
//! gives it back.
use vstd::prelude::*;
use vstd::utf8;
use crate::codec::Step;
use crate::types::Value;

verus! {

broadcast use vstd::utf8::encode_utf8_valid_utf8, vstd::utf8::encode_utf8_decode_utf8;

/// The decimal text of an integer, with a leading `-` when negative.
pub open spec fn int_text(i: int) -> Seq<u8> {
    if i < 0 {
        seq![45u8] + crate::text::decimal_digits((-i) as nat)
    } else {
        crate::text::decimal_digits(i as nat)
    }
}

/// The wire form of a reply. The null reply is written as the null bulk string.
pub open spec fn encode(v: Value) -> Seq<u8>
    decreases v, 0int,
{
    match v {
        Value::Nil => seq![36u8, 45u8, 49u8, 13u8, 10u8],
        Value::Integer(i) => seq![58u8] + int_text(i) + crate::codec::crlf(),
        Value::Simple(s) => seq![43u8] + utf8::encode_utf8(s) + crate::codec::crlf(),
        Value::Bulk(b) => seq![36u8] + int_text(b.len() as int) + crate::codec::crlf() + b
            + crate::codec::crlf(),
        Value::Array(items) => seq![42u8] + int_text(items.len() as int) + crate::codec::crlf()
            + encode_from(items, 0),
    }
}

/// The wire forms of `items[k..]`, one after the other.
pub open spec fn encode_from(items: Seq<Value>, k: nat) -> Seq<u8>
    decreases items, items.len() - k,
{
    if k >= items.len() {
        Seq::empty()
    } else {
        encode(items[k as int]) + encode_from(items, k + 1)
    }
}

/// Whether a reply can be written on the wire: integers and lengths fit
/// in an `isize`, and a simple string holds neither CR nor LF.
pub open spec fn encodable(v: Value) -> bool
    decreases v,
{
    match v {
        Value::Nil => true,
        Value::Integer(i) => crate::codec::fits_isize(i),
        Value::Simple(s) => forall|k: int|
            0 <= k < utf8::encode_utf8(s).len() ==> #[trigger] utf8::encode_utf8(s)[k] != 13
                && utf8::encode_utf8(s)[k] != 10,
        Value::Bulk(b) => b.len() <= isize::MAX,
        Value::Array(items) => items.len() <= isize::MAX && forall|k: int|
            0 <= k < items.len() ==> encodable(#[trigger] items[k]),
    }
}

/// The first CRLF at or after `p` is at `e` when no CR comes before it.
proof fn lemma_line_end(s: Seq<u8>, p: int, e: int)
    requires
        0 <= p <= e,
        e + 1 < s.len(),
        s[e] == 13 && s[e + 1] == 10,
        forall|k: int| p <= k < e ==> s[k] != 13,
    ensures
        crate::codec::line_end(s, p) == Some(e),
    decreases e - p,
{
    if p == e {
        assert(s.subrange(p, p + 2) =~= crate::codec::crlf());
    } else {
        assert(s.subrange(p, p + 2)[0] == s[p]);
        assert(s.subrange(p, p + 2) != crate::codec::crlf());
        lemma_line_end(s, p + 1, e);
    }
}

/// The digits of `n` spell `n`.
proof fn lemma_decimal_value(n: nat)
    ensures
        crate::codec::digits_value(crate::text::decimal_digits(n)) == n,
    decreases n,
{
    let d = crate::text::decimal_digits(n);
    if n >= 10 {
        lemma_decimal_value(n / 10);
        assert(d.drop_last() =~= crate::text::decimal_digits(n / 10));
        assert(d.last() == (48 + n % 10) as u8);
        assert(d.last() - 48 == n % 10);
        assert(crate::codec::digits_value(d) == crate::codec::digits_value(d.drop_last()) * 10 + (
        d.last() - 48));
        assert(n == (n / 10) * 10 + n % 10) by (nonlinear_arith);
    } else {
        assert(d.drop_last() =~= Seq::<u8>::empty());
        assert(d.last() == (48 + n) as u8);
        assert(d.last() - 48 == n);
        assert(crate::codec::digits_value(d.drop_last()) == 0);
        assert(crate::codec::digits_value(d) == crate::codec::digits_value(d.drop_last()) * 10 + (
        d.last() - 48));
    }
}

/// The text of an integer that fits parses back to it, and holds no CR.
proof fn lemma_int_text(i: int)
    requires
        crate::codec::fits_isize(i),
    ensures
        crate::codec::int_value(int_text(i)) == Some(i),
        forall|k: int| 0 <= k < int_text(i).len() ==> #[trigger] int_text(i)[k] != 13,
        int_text(i).len() > 0,
{
    let t = int_text(i);
    if i < 0 {
        let d = crate::text::decimal_digits((-i) as nat);
        crate::text::lemma_decimal_digits((-i) as nat);
        lemma_decimal_value((-i) as nat);
        assert(t.skip(1) =~= d);
        assert(crate::codec::all_digits(d));
    } else {
        let d = crate::text::decimal_digits(i as nat);
        crate::text::lemma_decimal_digits(i as nat);
        lemma_decimal_value(i as nat);
        assert(crate::codec::all_digits(d));
        assert(crate::codec::is_digit(t[0]));
    }
}

/// Cutting a known prefix `a + b` of `s` at `p` into its two parts.
proof fn lemma_split(s: Seq<u8>, p: int, a: Seq<u8>, b: Seq<u8>)
    requires
        0 <= p,
        p + a.len() + b.len() <= s.len(),
        s.subrange(p, p + a.len() + b.len()) == a + b,
    ensures
        s.subrange(p, p + a.len()) == a,
        s.subrange(p + a.len(), p + a.len() + b.len()) == b,
{
    assert(s.subrange(p, p + a.len()) =~= (a + b).subrange(0, a.len() as int));
    assert(s.subrange(p + a.len(), p + a.len() + b.len()) =~= (a + b).subrange(
        a.len() as int,
        (a.len() + b.len()) as int,
    ));
}

/// A header line `tag`, `t`, CRLF at `p`: its integer line ends right after it.
proof fn lemma_header(s: Seq<u8>, p: int, tag: u8, i: int)
    requires
        0 <= p,
        crate::codec::fits_isize(i),
        p + 1 + int_text(i).len() + 2 <= s.len(),
        s.subrange(p, p + 1 + int_text(i).len() + 2) == seq![tag] + int_text(i)
            + crate::codec::crlf(),
    ensures
        s[p] == tag,
        crate::codec::int_line(s, p + 1) == Some((Some(i), p + 1 + int_text(i).len() + 2)),
{
    let t = int_text(i);
    lemma_int_text(i);
    assert(s[p] == s.subrange(p, p + 1 + t.len() + 2)[0]);
    let e = p + 1 + t.len();
    assert(s[e] == s.subrange(p, p + 1 + t.len() + 2)[1 + t.len() as int]);
    assert(s[e + 1] == s.subrange(p, p + 1 + t.len() + 2)[2 + t.len() as int]);
    assert forall|k: int| p + 1 <= k < e implies s[k] != 13 by {
        assert(s[k] == s.subrange(p, p + 1 + t.len() + 2)[k - p]);
        assert(t[k - p - 1] != 13);
    }
    lemma_line_end(s, p + 1, e);
    assert(s.subrange(p + 1, e) =~= t) by {
        assert forall|k: int| 0 <= k < t.len() implies s.subrange(p + 1, e)[k] == t[k] by {
            assert(s[p + 1 + k] == s.subrange(p, p + 1 + t.len() + 2)[1 + k]);
        }
    }
}

/// Encodings are never empty.
proof fn lemma_encode_nonempty(v: Value)
    ensures
        encode(v).len() > 0,
{
    assert(encode(v)[0] == encode(v)[0]);
    match v {
        Value::Nil => {},
        Value::Integer(i) => {},
        Value::Simple(s) => {},
        Value::Bulk(b) => {},
        Value::Array(items) => {},
    }
}

/// Decoding, at `p`, bytes that hold the encoding of `v` there gives `v`
/// and the position right after its encoding.
pub proof fn lemma_decode_encode(s: Seq<u8>, p: int, v: Value)
    requires
        encodable(v),
        0 <= p,
        p + encode(v).len() <= s.len(),
        s.subrange(p, p + encode(v).len()) == encode(v),
    ensures
        crate::codec::decode_value(s, p) == Step::Done(v, p + encode(v).len()),
    decreases v, 1int,
{
    let enc = encode(v);
    match v {
        Value::Nil => {
            let t = int_text(-1);
            assert(t =~= seq![45u8, 49u8]) by {
                assert(crate::text::decimal_digits(1) =~= seq![49u8]);
            }
            assert(enc =~= seq![36u8] + t + crate::codec::crlf());
            lemma_header(s, p, 36u8, -1);
        },
        Value::Integer(i) => {
            lemma_header(s, p, 58u8, i);
        },
        Value::Simple(text) => {
            let u = utf8::encode_utf8(text);
            let e = p + 1 + u.len();
            assert(s[p] == enc[0]);
            assert(s[e] == enc[1 + u.len() as int]);
            assert(s[e + 1] == enc[2 + u.len() as int]);
            assert forall|k: int| p + 1 <= k < e implies s[k] != 13 by {
                assert(s[k] == enc[k - p]);
                assert(u[k - p - 1] != 13);
            }
            lemma_line_end(s, p + 1, e);
            assert(s.subrange(p + 1, e) =~= u) by {
                assert forall|k: int| 0 <= k < u.len() implies s.subrange(p + 1, e)[k] == u[k] by {
                    assert(s[p + 1 + k] == enc[1 + k]);
                }
            }
        },
        Value::Bulk(b) => {
            let n = b.len() as int;
            let t = int_text(n);
            let head = seq![36u8] + t + crate::codec::crlf();
            assert(enc =~= head + (b + crate::codec::crlf()));
            lemma_split(s, p, head, b + crate::codec::crlf());
            lemma_header(s, p, 36u8, n);
            let q = p + head.len();
            lemma_split(s, q, b, crate::codec::crlf());
            assert(s[q + n] == s.subrange(q + n, q + n + 2)[0]);
            assert(s[q + n + 1] == s.subrange(q + n, q + n + 2)[1]);
        },
        Value::Array(items) => {
            let n = items.len() as int;
            let t = int_text(n);
            let head = seq![42u8] + t + crate::codec::crlf();
            let body = encode_from(items, 0);
            assert(enc =~= head + body);
            lemma_split(s, p, head, body);
            lemma_header(s, p, 42u8, n);
            let q = p + head.len();
            lemma_decode_items(s, q, items, 0);
            assert(items.take(0) =~= Seq::<Value>::empty());
        },
    }
}

/// Decoding, at `pos`, bytes that hold the encodings of `items[k..]` there
/// gives the array `items`, once `items[..k]` were decoded.
proof fn lemma_decode_items(s: Seq<u8>, pos: int, items: Seq<Value>, k: nat)
    requires
        k <= items.len(),
        forall|j: int| 0 <= j < items.len() ==> encodable(#[trigger] items[j]),
        0 <= pos,
        pos + encode_from(items, k).len() <= s.len(),
        s.subrange(pos, pos + encode_from(items, k).len()) == encode_from(items, k),
    ensures
        crate::codec::decode_items(s, pos, items.len() - k, items.take(k as int)) == Step::Done(
            Value::Array(items),
            pos + encode_from(items, k).len(),
        ),
    decreases items, items.len() - k,
{
    if k == items.len() {
        assert(items.take(k as int) =~= items);
    } else {
        let head = encode(items[k as int]);
        let rest = encode_from(items, k + 1);
        lemma_split(s, pos, head, rest);
        lemma_decode_encode(s, pos, items[k as int]);
        lemma_encode_nonempty(items[k as int]);
        assert(items.take(k as int).push(items[k as int]) =~= items.take((k + 1) as int));
        lemma_decode_items(s, pos + head.len(), items, k + 1);
    }
}

/// Decoding the encoding of a reply, whatever follows it, gives the reply
/// back and consumes exactly its encoding.
pub proof fn lemma_round_trip(v: Value, rest: Seq<u8>)
    requires
        encodable(v),
    ensures
        crate::codec::decode_value(encode(v) + rest, 0) == Step::Done(v, encode(v).len() as int),
{
    let s = encode(v) + rest;
    assert(s.subrange(0, encode(v).len() as int) =~= encode(v));
    lemma_decode_encode(s, 0, v);
}

/// The type tag a reply's encoding starts with; the null reply is written
/// as the null bulk string.
pub open spec fn tag_of(v: Value) -> u8 {
    match v {
        Value::Nil => 36u8,
        Value::Integer(_) => 58u8,
        Value::Simple(_) => 43u8,
        Value::Bulk(_) => 36u8,
        Value::Array(_) => 42u8,
    }
}

/// A reader asking for the reply's own type, over bytes that start with
/// its encoding, gets the reply and leaves exactly what follows it.
pub proof fn lemma_read_round_trip(v: Value, rest: Seq<u8>)
    requires
        encodable(v),
    ensures
        crate::codec::reply_step(encode(v) + rest, tag_of(v)) == Step::Done(
            v,
            encode(v).len() as int,
        ),
        (encode(v) + rest).skip(encode(v).len() as int) == rest,
{
    lemma_round_trip(v, rest);
    let s = encode(v) + rest;
    assert(s[0] == encode(v)[0]);
    assert(s.skip(encode(v).len() as int) =~= rest);
}

} // verus!
