//! URL query strings: encoding a list of key-value pairs into the
//! `k1=v1&k2=v2` form with percent escapes, and decoding such a string back
//! into pairs.  Decoding an encoded pair list gives the original list back;
//! see [`lemma_query_round_trip`].
//!
//! Keys and values are escaped byte by byte over their UTF-8 encoding:
//! ASCII letters, digits, `-`, `.` and `_` stand for themselves, every other
//! byte becomes `%` followed by two upper-case hex digits.

use vstd::prelude::*;
use vstd::string::StringSliceAdditionalSpecFns;
use vstd::utf8::{decode_utf8, encode_utf8, valid_utf8};

use crate::text::{all_ascii, ascii_chars_of, ascii_string, lemma_ascii_encode};

verus! {

/// Percent escape: `%`.
pub const PERCENT: u8 = 37;

/// Pair separator: `&`.
pub const AMPERSAND: u8 = 38;

/// Key-value separator: `=`.
pub const EQUALS: u8 = 61;

/// Bytes that stand for themselves in an encoded component: ASCII letters,
/// digits, `-`, `.` and `_`.
pub open spec fn is_unreserved(b: u8) -> bool {
    (48 <= b <= 57) || (65 <= b <= 90) || (97 <= b <= 122) || b == 45 || b == 46 || b == 95
}

/// The upper-case hex digit for a value below sixteen.
pub open spec fn hex_digit(n: u8) -> u8
    recommends
        n < 16,
{
    if n < 10 {
        (48 + n) as u8
    } else {
        (55 + n) as u8
    }
}

/// The value of one hex digit, either case.
pub open spec fn hex_val(b: u8) -> Option<u8> {
    if 48 <= b <= 57 {
        Some((b - 48) as u8)
    } else if 65 <= b <= 70 {
        Some((b - 55) as u8)
    } else if 97 <= b <= 102 {
        Some((b - 87) as u8)
    } else {
        None
    }
}

/// The encoding of one byte: itself when unreserved, else a percent escape.
pub open spec fn enc_byte(b: u8) -> Seq<u8> {
    if is_unreserved(b) {
        seq![b]
    } else {
        seq![PERCENT, hex_digit(b / 16), hex_digit((b % 16) as u8)]
    }
}

/// The encoding of one key or value.
pub open spec fn enc_component(s: Seq<u8>) -> Seq<u8>
    decreases s.len(),
{
    if s.len() == 0 {
        seq![]
    } else {
        enc_byte(s[0]) + enc_component(s.drop_first())
    }
}

/// The encoding of one `key=value` pair.
pub open spec fn enc_pair(k: Seq<u8>, v: Seq<u8>) -> Seq<u8> {
    enc_component(k) + seq![EQUALS] + enc_component(v)
}

/// The encoding of a whole pair list, pairs joined by `&`.
pub open spec fn enc_query(ps: Seq<(Seq<u8>, Seq<u8>)>) -> Seq<u8>
    decreases ps.len(),
{
    if ps.len() == 0 {
        seq![]
    } else if ps.len() == 1 {
        enc_pair(ps[0].0, ps[0].1)
    } else {
        enc_pair(ps[0].0, ps[0].1) + seq![AMPERSAND] + enc_query(ps.drop_first())
    }
}

/// Undoes the escaping of one component.  Fails on a truncated or malformed
/// escape and on a bare separator byte.
pub open spec fn dec_component(s: Seq<u8>) -> Option<Seq<u8>>
    decreases s.len(),
{
    if s.len() == 0 {
        Some(seq![])
    } else if s[0] == PERCENT {
        if s.len() >= 3 {
            match (hex_val(s[1]), hex_val(s[2])) {
                (Some(h), Some(l)) => match dec_component(s.skip(3)) {
                    Some(rest) => Some(seq![(16 * h + l) as u8] + rest),
                    None => None,
                },
                _ => None,
            }
        } else {
            None
        }
    } else if s[0] == AMPERSAND || s[0] == EQUALS {
        None
    } else {
        match dec_component(s.drop_first()) {
            Some(rest) => Some(seq![s[0]] + rest),
            None => None,
        }
    }
}

/// The position of the first `&`, if any.
pub open spec fn first_amp(s: Seq<u8>) -> Option<int>
    decreases s.len(),
{
    if s.len() == 0 {
        None
    } else if s[0] == AMPERSAND {
        Some(0)
    } else {
        match first_amp(s.drop_first()) {
            Some(i) => Some(i + 1),
            None => None,
        }
    }
}

/// The position of the first `=`, if any.
pub open spec fn first_eq(s: Seq<u8>) -> Option<int>
    decreases s.len(),
{
    if s.len() == 0 {
        None
    } else if s[0] == EQUALS {
        Some(0)
    } else {
        match first_eq(s.drop_first()) {
            Some(i) => Some(i + 1),
            None => None,
        }
    }
}

/// Decodes one `key=value` segment: split at the first `=`, then undo the
/// escaping on each side.
pub open spec fn dec_pair(s: Seq<u8>) -> Option<(Seq<u8>, Seq<u8>)> {
    match first_eq(s) {
        None => None,
        Some(i) => match (dec_component(s.take(i)), dec_component(s.skip(i + 1))) {
            (Some(k), Some(v)) => Some((k, v)),
            _ => None,
        },
    }
}

/// Decodes a non-empty query: split at each `&`, one pair per segment.
pub open spec fn dec_pairs(s: Seq<u8>) -> Option<Seq<(Seq<u8>, Seq<u8>)>>
    decreases s.len(),
{
    match first_amp(s) {
        None => match dec_pair(s) {
            Some(p) => Some(seq![p]),
            None => None,
        },
        Some(i) => if 0 <= i < s.len() {
            match (dec_pair(s.take(i)), dec_pairs(s.skip(i + 1))) {
                (Some(p), Some(rest)) => Some(seq![p] + rest),
                _ => None,
            }
        } else {
            None
        },
    }
}

/// Decodes a whole query string: the empty string is the empty list.
pub open spec fn dec_query(s: Seq<u8>) -> Option<Seq<(Seq<u8>, Seq<u8>)>> {
    if s.len() == 0 {
        Some(seq![])
    } else {
        dec_pairs(s)
    }
}

/// An encoded component never holds a separator and is ASCII throughout.
pub proof fn lemma_enc_component_clean(s: Seq<u8>)
    ensures
        forall|j: int|
            0 <= j < enc_component(s).len() ==> (#[trigger] enc_component(s)[j]) != AMPERSAND
                && enc_component(s)[j] != EQUALS && enc_component(s)[j] < 128,
    decreases s.len(),
{
    if s.len() > 0 {
        lemma_enc_component_clean(s.drop_first());
        let e = enc_component(s);
        let hd = enc_byte(s[0]);
        let tl = enc_component(s.drop_first());
        assert forall|j: int| 0 <= j < e.len() implies (#[trigger] e[j]) != AMPERSAND && e[j]
            != EQUALS && e[j] < 128 by {
            if j < hd.len() {
                assert(e[j] == hd[j]);
            } else {
                assert(e[j] == tl[j - hd.len()]);
            }
        }
    }
}

/// Escaping then unescaping one hex digit's value gives it back.
pub proof fn lemma_hex_round(x: u8)
    requires
        x < 16,
    ensures
        hex_val(hex_digit(x)) == Some(x),
{
}

/// Unescaping undoes escaping on one component.
pub proof fn lemma_dec_enc_component(s: Seq<u8>)
    ensures
        dec_component(enc_component(s)) == Some(s),
    decreases s.len(),
{
    if s.len() == 0 {
        assert(enc_component(s) =~= Seq::<u8>::empty());
    } else {
        lemma_dec_enc_component(s.drop_first());
        let e = enc_component(s);
        if is_unreserved(s[0]) {
            assert(e.drop_first() =~= enc_component(s.drop_first()));
            assert(seq![s[0]] + s.drop_first() =~= s);
        } else {
            lemma_hex_round(s[0] / 16);
            lemma_hex_round((s[0] % 16) as u8);
            assert(e.skip(3) =~= enc_component(s.drop_first()));
            assert(16 * (s[0] / 16) + (s[0] % 16) == s[0]);
            assert(seq![s[0]] + s.drop_first() =~= s);
        }
    }
}

/// In `a = b + [x] + c` where `x` does not occur in `b`, the first
/// occurrence of `x` is at `b.len()`; here for `=`.
pub proof fn lemma_first_eq_at(b: Seq<u8>, c: Seq<u8>)
    requires
        forall|j: int| 0 <= j < b.len() ==> (#[trigger] b[j]) != EQUALS,
    ensures
        first_eq(b + seq![EQUALS] + c) == Some(b.len() as int),
    decreases b.len(),
{
    let s = b + seq![EQUALS] + c;
    if b.len() == 0 {
        assert(s[0] == EQUALS);
    } else {
        lemma_first_eq_at(b.drop_first(), c);
        assert(s.drop_first() =~= b.drop_first() + seq![EQUALS] + c);
    }
}

/// The same for `&`.
pub proof fn lemma_first_amp_at(b: Seq<u8>, c: Seq<u8>)
    requires
        forall|j: int| 0 <= j < b.len() ==> (#[trigger] b[j]) != AMPERSAND,
    ensures
        first_amp(b + seq![AMPERSAND] + c) == Some(b.len() as int),
    decreases b.len(),
{
    let s = b + seq![AMPERSAND] + c;
    if b.len() == 0 {
        assert(s[0] == AMPERSAND);
    } else {
        lemma_first_amp_at(b.drop_first(), c);
        assert(s.drop_first() =~= b.drop_first() + seq![AMPERSAND] + c);
    }
}

/// Where the first `&` is known by inspection, `first_amp` finds it.
pub proof fn lemma_first_amp_found(s: Seq<u8>, i: int)
    requires
        0 <= i < s.len(),
        s[i] == AMPERSAND,
        forall|j: int| 0 <= j < i ==> s[j] != AMPERSAND,
    ensures
        first_amp(s) == Some(i),
    decreases i,
{
    if i > 0 {
        lemma_first_amp_found(s.drop_first(), i - 1);
    }
}

/// Where the first `=` is known by inspection, `first_eq` finds it.
pub proof fn lemma_first_eq_found(s: Seq<u8>, i: int)
    requires
        0 <= i < s.len(),
        s[i] == EQUALS,
        forall|j: int| 0 <= j < i ==> s[j] != EQUALS,
    ensures
        first_eq(s) == Some(i),
    decreases i,
{
    if i > 0 {
        lemma_first_eq_found(s.drop_first(), i - 1);
    }
}

/// A sequence without `=` has no first `=`.
pub proof fn lemma_first_eq_none(s: Seq<u8>)
    requires
        forall|j: int| 0 <= j < s.len() ==> (#[trigger] s[j]) != EQUALS,
    ensures
        first_eq(s) is None,
    decreases s.len(),
{
    if s.len() > 0 {
        lemma_first_eq_none(s.drop_first());
    }
}

/// A sequence without `&` has no first `&`.
pub proof fn lemma_first_amp_none(s: Seq<u8>)
    requires
        forall|j: int| 0 <= j < s.len() ==> (#[trigger] s[j]) != AMPERSAND,
    ensures
        first_amp(s) is None,
    decreases s.len(),
{
    if s.len() > 0 {
        lemma_first_amp_none(s.drop_first());
    }
}

/// Decoding undoes encoding on one pair.
pub proof fn lemma_dec_enc_pair(k: Seq<u8>, v: Seq<u8>)
    ensures
        dec_pair(enc_pair(k, v)) == Some((k, v)),
{
    let ek = enc_component(k);
    let ev = enc_component(v);
    let s = enc_pair(k, v);
    lemma_enc_component_clean(k);
    lemma_enc_component_clean(v);
    lemma_first_eq_at(ek, ev);
    assert(s =~= ek + seq![EQUALS] + ev);
    assert(s.take(ek.len() as int) =~= ek);
    assert(s.skip(ek.len() as int + 1) =~= ev);
    lemma_dec_enc_component(k);
    lemma_dec_enc_component(v);
}

/// An encoded pair is never empty and never holds `&`.
pub proof fn lemma_enc_pair_clean(k: Seq<u8>, v: Seq<u8>)
    ensures
        enc_pair(k, v).len() >= 1,
        forall|j: int|
            0 <= j < enc_pair(k, v).len() ==> (#[trigger] enc_pair(k, v)[j]) != AMPERSAND,
{
    lemma_enc_component_clean(k);
    lemma_enc_component_clean(v);
    let s = enc_pair(k, v);
    assert forall|j: int| 0 <= j < s.len() implies (#[trigger] s[j]) != AMPERSAND by {
        let ek = enc_component(k);
        if j < ek.len() {
            assert(s[j] == ek[j]);
        } else if j == ek.len() {
        } else {
            assert(s[j] == enc_component(v)[j - ek.len() - 1]);
        }
    }
}

/// Decoding undoes encoding on a whole pair list.
pub proof fn lemma_dec_enc_query(ps: Seq<(Seq<u8>, Seq<u8>)>)
    ensures
        dec_query(enc_query(ps)) == Some(ps),
    decreases ps.len(),
{
    if ps.len() == 0 {
        assert(Some(Seq::<(Seq<u8>, Seq<u8>)>::empty()) == dec_query(enc_query(ps)));
        assert(ps =~= Seq::<(Seq<u8>, Seq<u8>)>::empty());
    } else if ps.len() == 1 {
        let s = enc_query(ps);
        lemma_enc_pair_clean(ps[0].0, ps[0].1);
        lemma_first_amp_none(s);
        lemma_dec_enc_pair(ps[0].0, ps[0].1);
        assert((ps[0].0, ps[0].1) == ps[0]);
        assert(seq![ps[0]] =~= ps);
    } else {
        let p = enc_pair(ps[0].0, ps[0].1);
        let rest = enc_query(ps.drop_first());
        let s = enc_query(ps);
        lemma_enc_pair_clean(ps[0].0, ps[0].1);
        lemma_first_amp_at(p, rest);
        assert(s =~= p + seq![AMPERSAND] + rest);
        assert(s.take(p.len() as int) =~= p);
        assert(s.skip(p.len() as int + 1) =~= rest);
        lemma_dec_enc_pair(ps[0].0, ps[0].1);
        lemma_dec_enc_query(ps.drop_first());
        assert(rest.len() >= 1) by {
            lemma_enc_pair_clean(ps.drop_first()[0].0, ps.drop_first()[0].1);
            if ps.drop_first().len() > 1 {
            }
        }
        assert((ps[0].0, ps[0].1) == ps[0]);
        assert(seq![ps[0]] + ps.drop_first() =~= ps);
    }
}

/// Every byte of an encoded query is ASCII.
pub proof fn lemma_enc_query_ascii(ps: Seq<(Seq<u8>, Seq<u8>)>)
    ensures
        all_ascii(enc_query(ps)),
    decreases ps.len(),
{
    if ps.len() == 0 {
    } else {
        lemma_enc_component_clean(ps[0].0);
        lemma_enc_component_clean(ps[0].1);
        if ps.len() > 1 {
            lemma_enc_query_ascii(ps.drop_first());
        }
    }
}

/// The UTF-8 byte pairs behind a character-level pair list.
pub open spec fn pairs_bytes(ps: Seq<(Seq<char>, Seq<char>)>) -> Seq<(Seq<u8>, Seq<u8>)> {
    ps.map_values(|p: (Seq<char>, Seq<char>)| (encode_utf8(p.0), encode_utf8(p.1)))
}

/// The views behind a list of string pairs.
pub open spec fn views_of_pairs(ps: Seq<(String, String)>) -> Seq<(Seq<char>, Seq<char>)> {
    ps.map_values(|p: (String, String)| (p.0@, p.1@))
}

/// The query string that encodes a character-level pair list.
pub open spec fn spec_encode_query(ps: Seq<(Seq<char>, Seq<char>)>) -> Seq<char> {
    ascii_chars_of(enc_query(pairs_bytes(ps)))
}

/// The pair list a query string decodes to, when every step decodes: the
/// split and unescaping at the byte level, then UTF-8 decoding of each key
/// and value.
pub open spec fn spec_decode_query(s: Seq<char>) -> Option<Seq<(Seq<char>, Seq<char>)>> {
    match dec_query(encode_utf8(s)) {
        None => None,
        Some(bs) => if forall|i: int|
            0 <= i < bs.len() ==> valid_utf8((#[trigger] bs[i]).0) && valid_utf8(bs[i].1) {
            Some(bs.map_values(|p: (Seq<u8>, Seq<u8>)| (decode_utf8(p.0), decode_utf8(p.1))))
        } else {
            None
        },
    }
}

/// Law: decoding an encoded pair list returns exactly the original pairs —
/// the same keys and values, in the same number and order.
pub proof fn lemma_query_round_trip(ps: Seq<(Seq<char>, Seq<char>)>)
    ensures
        spec_decode_query(spec_encode_query(ps)) == Some(ps),
{
    let bs = pairs_bytes(ps);
    let enc = enc_query(bs);
    lemma_enc_query_ascii(bs);
    lemma_ascii_encode(enc);
    lemma_dec_enc_query(bs);
    assert forall|i: int| 0 <= i < bs.len() implies valid_utf8((#[trigger] bs[i]).0) && valid_utf8(
        bs[i].1,
    ) by {
        vstd::utf8::encode_utf8_valid_utf8(ps[i].0);
        vstd::utf8::encode_utf8_valid_utf8(ps[i].1);
    }
    assert(bs.map_values(|p: (Seq<u8>, Seq<u8>)| (decode_utf8(p.0), decode_utf8(p.1))) =~= ps) by {
        assert forall|i: int| 0 <= i < bs.len() implies (decode_utf8((#[trigger] bs[i]).0),
        decode_utf8(bs[i].1)) == ps[i] by {
            vstd::utf8::encode_utf8_decode_utf8(ps[i].0);
            vstd::utf8::encode_utf8_decode_utf8(ps[i].1);
            assert((ps[i].0, ps[i].1) == ps[i]);
        }
    }
}

/// Encoding one more byte extends the encoded component at its end.
pub proof fn lemma_enc_component_snoc(a: Seq<u8>, x: u8)
    ensures
        enc_component(a.push(x)) == enc_component(a) + enc_byte(x),
    decreases a.len(),
{
    if a.len() == 0 {
        assert(a.push(x).drop_first() =~= Seq::<u8>::empty());
        assert(a.push(x)[0] == x);
        assert(a.push(x).len() == 1);
        assert(enc_component(a.push(x)) == enc_byte(x) + enc_component(Seq::<u8>::empty()));
        assert(enc_component(a.push(x)) =~= enc_component(a) + enc_byte(x));
    } else {
        lemma_enc_component_snoc(a.drop_first(), x);
        assert(a.push(x).drop_first() =~= a.drop_first().push(x));
        assert(a.push(x)[0] == a[0]);
        assert(a.push(x).len() == a.len() + 1);
        assert(enc_component(a.push(x)) == enc_byte(a[0]) + enc_component(a.drop_first().push(x)));
        assert(enc_component(a.push(x)) =~= enc_component(a) + enc_byte(x));
    }
}

/// Encoding one more pair extends the encoded query at its end.
pub proof fn lemma_enc_query_snoc(ps: Seq<(Seq<u8>, Seq<u8>)>, p: (Seq<u8>, Seq<u8>))
    ensures
        enc_query(ps.push(p)) == if ps.len() == 0 {
            enc_pair(p.0, p.1)
        } else {
            enc_query(ps) + seq![AMPERSAND] + enc_pair(p.0, p.1)
        },
    decreases ps.len(),
{
    let w = ps.push(p);
    if ps.len() == 0 {
        assert(w[0] == p);
        assert((w[0].0, w[0].1) == p);
    } else {
        lemma_enc_query_snoc(ps.drop_first(), p);
        assert(w.drop_first() =~= ps.drop_first().push(p));
        assert(w[0] == ps[0]);
        if ps.len() == 1 {
            assert(enc_query(w) =~= enc_query(ps) + seq![AMPERSAND] + enc_pair(p.0, p.1));
        } else {
            assert(enc_query(w) =~= enc_query(ps) + seq![AMPERSAND] + enc_pair(p.0, p.1));
        }
    }
}

/// The upper-case hex digit for a value below sixteen.
fn hex_digit_exec(n: u8) -> (r: u8)
    requires
        n < 16,
    ensures
        r == hex_digit(n),
{
    if n < 10 {
        48 + n
    } else {
        55 + n
    }
}

/// Appends the encoding of one key or value to `out`.
fn push_component(out: &mut Vec<u8>, s: &Vec<u8>)
    ensures
        final(out)@ == old(out)@ + enc_component(s@),
{
    let ghost base = out@;
    let mut i: usize = 0;
    while i < s.len()
        invariant
            i <= s@.len(),
            out@ == base + enc_component(s@.take(i as int)),
        decreases s@.len() - i,
    {
        let b = s[i];
        if (48 <= b && b <= 57) || (65 <= b && b <= 90) || (97 <= b && b <= 122) || b == 45 || b
            == 46 || b == 95 {
            out.push(b);
        } else {
            out.push(PERCENT);
            out.push(hex_digit_exec(b / 16));
            out.push(hex_digit_exec(b % 16));
        }
        proof {
            lemma_enc_component_snoc(s@.take(i as int), s@[i as int]);
            assert(s@.take(i as int).push(s@[i as int]) =~= s@.take(i as int + 1));
            assert(out@ =~= base + enc_component(s@.take(i as int + 1)));
        }
        i = i + 1;
    }
    proof {
        assert(s@.take(s@.len() as int) =~= s@);
    }
}

/// Encodes a pair list as a query string: pairs joined by `&`, key and
/// value joined by `=`, both percent escaped.
pub fn encode_query(pairs: &Vec<(String, String)>) -> (r: String)
    ensures
        r@ == spec_encode_query(views_of_pairs(pairs@)),
{
    let ghost cps = views_of_pairs(pairs@);
    let ghost bps = pairs_bytes(cps);
    let mut out: Vec<u8> = Vec::new();
    let mut i: usize = 0;
    proof {
        assert(out@ =~= enc_query(bps.take(0)));
    }
    while i < pairs.len()
        invariant
            i <= pairs@.len(),
            cps == views_of_pairs(pairs@),
            bps == pairs_bytes(cps),
            bps.len() == pairs@.len(),
            out@ == enc_query(bps.take(i as int)),
        decreases pairs@.len() - i,
    {
        let p = &pairs[i];
        let kb = p.0.as_str().as_bytes_vec();
        let vb = p.1.as_str().as_bytes_vec();
        proof {
            assert(bps[i as int] == (kb@, vb@));
        }
        if i > 0 {
            out.push(AMPERSAND);
        }
        push_component(&mut out, &kb);
        out.push(EQUALS);
        push_component(&mut out, &vb);
        proof {
            lemma_enc_query_snoc(bps.take(i as int), bps[i as int]);
            assert(bps.take(i as int).push(bps[i as int]) =~= bps.take(i as int + 1));
            assert((bps[i as int].0, bps[i as int].1) == bps[i as int]);
            assert(out@ =~= enc_query(bps.take(i as int + 1)));
        }
        i = i + 1;
    }
    proof {
        assert(bps.take(bps.len() as int) =~= bps);
        lemma_enc_query_ascii(bps);
    }
    ascii_string(out)
}

/// The pair list one optional parameter contributes: one pair when the
/// value is given, nothing otherwise.
pub open spec fn opt_pair(name: Seq<char>, value: Option<Seq<char>>) -> Seq<
    (Seq<char>, Seq<char>),
> {
    match value {
        Some(v) => seq![(name, v)],
        None => seq![],
    }
}

/// Appends one optional parameter to a pair list under construction.
pub fn push_param(pairs: &mut Vec<(String, String)>, name: &str, value: Option<String>)
    ensures
        views_of_pairs(final(pairs)@) == views_of_pairs(old(pairs)@) + opt_pair(
            name@,
            match value {
                Some(v) => Some(v@),
                None => None::<Seq<char>>,
            },
        ),
{
    let ghost before = views_of_pairs(pairs@);
    match value {
        Some(v) => {
            let ghost vv = v@;
            pairs.push((String::from_str(name), v));
            proof {
                assert(views_of_pairs(pairs@) =~= before + opt_pair(name@, Some(vv)));
            }
        },
        None => {
            proof {
                assert(views_of_pairs(pairs@) =~= before + opt_pair(name@, None::<Seq<char>>));
            }
        },
    }
}

/// Prepends already-decoded output to the rest of a decoding.
pub open spec fn with_rest<T>(prefix: Seq<T>, r: Option<Seq<T>>) -> Option<Seq<T>> {
    match r {
        Some(t) => Some(prefix + t),
        None => None,
    }
}

/// Prefixes compose.
pub proof fn lemma_with_rest_assoc<T>(a: Seq<T>, b: Seq<T>, r: Option<Seq<T>>)
    ensures
        with_rest(a, with_rest(b, r)) == with_rest(a + b, r),
{
    match r {
        Some(t) => {
            assert(a + (b + t) =~= (a + b) + t);
        },
        None => {},
    }
}

/// The value of one hex digit, either case.
fn hex_val_exec(b: u8) -> (r: Option<u8>)
    ensures
        r == hex_val(b),
{
    if 48 <= b && b <= 57 {
        Some(b - 48)
    } else if 65 <= b && b <= 70 {
        Some(b - 55)
    } else if 97 <= b && b <= 102 {
        Some(b - 87)
    } else {
        None
    }
}

/// Copies `s[a..b]` into a fresh vector.
fn sub_vec(s: &Vec<u8>, a: usize, b: usize) -> (r: Vec<u8>)
    requires
        a <= b <= s@.len(),
    ensures
        r@ == s@.subrange(a as int, b as int),
{
    let mut r: Vec<u8> = Vec::new();
    let mut i: usize = a;
    while i < b
        invariant
            a <= i <= b <= s@.len(),
            r@ == s@.subrange(a as int, i as int),
        decreases b - i,
    {
        r.push(s[i]);
        proof {
            assert(s@.subrange(a as int, i as int).push(s@[i as int]) =~= s@.subrange(
                a as int,
                i as int + 1,
            ));
        }
        i = i + 1;
    }
    r
}

/// Scans for the first `&` at or after `from`.
fn find_amp(s: &Vec<u8>, from: usize) -> (r: Option<usize>)
    requires
        from <= s@.len(),
    ensures
        match r {
            Some(j) => from <= j < s@.len() && first_amp(s@.skip(from as int)) == Some(
                j - from as int,
            ),
            None => first_amp(s@.skip(from as int)) is None,
        },
{
    let ghost tail = s@.skip(from as int);
    let mut i: usize = from;
    while i < s.len()
        invariant
            from <= i <= s@.len(),
            tail == s@.skip(from as int),
            forall|j: int| from <= j < i ==> s@[j] != AMPERSAND,
        decreases s@.len() - i,
    {
        if s[i] == AMPERSAND {
            proof {
                assert forall|j: int| 0 <= j < i - from implies tail[j] != AMPERSAND by {
                    assert(tail[j] == s@[j + from]);
                }
                lemma_first_amp_found(tail, i - from as int);
            }
            return Some(i);
        }
        i = i + 1;
    }
    proof {
        assert forall|j: int| 0 <= j < tail.len() implies (#[trigger] tail[j]) != AMPERSAND by {
            assert(tail[j] == s@[j + from]);
        }
        lemma_first_amp_none(tail);
    }
    None
}

/// Scans a whole segment for its first `=`.
fn find_eq(s: &Vec<u8>) -> (r: Option<usize>)
    ensures
        match r {
            Some(j) => j < s@.len() && first_eq(s@) == Some(j as int),
            None => first_eq(s@) is None,
        },
{
    let mut i: usize = 0;
    while i < s.len()
        invariant
            i <= s@.len(),
            forall|j: int| 0 <= j < i ==> s@[j] != EQUALS,
        decreases s@.len() - i,
    {
        if s[i] == EQUALS {
            proof {
                lemma_first_eq_found(s@, i as int);
            }
            return Some(i);
        }
        i = i + 1;
    }
    proof {
        lemma_first_eq_none(s@);
    }
    None
}

/// Undoes the escaping of one component.
fn decode_component(s: &Vec<u8>) -> (r: Option<Vec<u8>>)
    ensures
        match r {
            Some(v) => dec_component(s@) == Some(v@),
            None => dec_component(s@) is None,
        },
{
    let mut out: Vec<u8> = Vec::new();
    let mut i: usize = 0;
    proof {
        assert(s@.skip(0) =~= s@);
        assert(Seq::<u8>::empty() + dec_component(s@).unwrap() =~= dec_component(s@).unwrap());
    }
    while i < s.len()
        invariant
            i <= s@.len(),
            dec_component(s@) == with_rest(out@, dec_component(s@.skip(i as int))),
        decreases s@.len() - i,
    {
        let ghost tail = s@.skip(i as int);
        proof {
            assert(tail[0] == s@[i as int]);
        }
        let b = s[i];
        if b == PERCENT {
            if s.len() - i < 3 {
                proof {
                    assert(dec_component(tail) is None);
                }
                return None;
            }
            proof {
                assert(tail[1] == s@[i as int + 1]);
                assert(tail[2] == s@[i as int + 2]);
            }
            let h = hex_val_exec(s[i + 1]);
            let l = hex_val_exec(s[i + 2]);
            match (h, l) {
                (Some(h), Some(l)) => {
                    let ghost out0 = out@;
                    out.push(16 * h + l);
                    proof {
                        assert(tail.skip(3) =~= s@.skip(i as int + 3));
                        assert(dec_component(tail) == with_rest(
                            seq![(16 * h + l) as u8],
                            dec_component(s@.skip(i as int + 3)),
                        ));
                        lemma_with_rest_assoc(
                            out0,
                            seq![(16 * h + l) as u8],
                            dec_component(s@.skip(i as int + 3)),
                        );
                        assert(out0 + seq![(16 * h + l) as u8] =~= out@);
                    }
                    i = i + 3;
                },
                _ => {
                    proof {
                        assert(dec_component(tail) is None);
                    }
                    return None;
                },
            }
        } else if b == AMPERSAND || b == EQUALS {
            proof {
                assert(dec_component(tail) is None);
            }
            return None;
        } else {
            let ghost out0 = out@;
            out.push(b);
            proof {
                assert(tail.drop_first() =~= s@.skip(i as int + 1));
                assert(dec_component(tail) == with_rest(
                    seq![b],
                    dec_component(s@.skip(i as int + 1)),
                ));
                lemma_with_rest_assoc(out0, seq![b], dec_component(s@.skip(i as int + 1)));
                assert(out0 + seq![b] =~= out@);
            }
            i = i + 1;
        }
    }
    proof {
        assert(s@.skip(i as int) =~= Seq::<u8>::empty());
        assert(out@ + Seq::<u8>::empty() =~= out@);
    }
    Some(out)
}

/// Decodes one `key=value` segment.
fn decode_pair(seg: &Vec<u8>) -> (r: Option<(Vec<u8>, Vec<u8>)>)
    ensures
        match r {
            Some(p) => dec_pair(seg@) == Some((p.0@, p.1@)),
            None => dec_pair(seg@) is None,
        },
{
    match find_eq(seg) {
        None => None,
        Some(j) => {
            let n = seg.len();
            let kb = sub_vec(seg, 0, j);
            let vb = sub_vec(seg, j + 1, n);
            proof {
                assert(seg@.take(j as int) =~= seg@.subrange(0, j as int));
                assert(seg@.skip(j as int + 1) =~= seg@.subrange(
                    j as int + 1,
                    seg@.len() as int,
                ));
            }
            match (decode_component(&kb), decode_component(&vb)) {
                (Some(k), Some(v)) => Some((k, v)),
                _ => None,
            }
        },
    }
}

/// The views behind a list of byte pairs.
pub open spec fn byte_pair_views(ps: Seq<(Vec<u8>, Vec<u8>)>) -> Seq<(Seq<u8>, Seq<u8>)> {
    ps.map_values(|p: (Vec<u8>, Vec<u8>)| (p.0@, p.1@))
}

/// Splits a non-empty query at each `&` and decodes one pair per segment.
fn decode_pairs_bytes(bytes: &Vec<u8>) -> (r: Option<Vec<(Vec<u8>, Vec<u8>)>>)
    requires
        bytes@.len() > 0,
    ensures
        match r {
            Some(v) => dec_pairs(bytes@) == Some(byte_pair_views(v@)),
            None => dec_pairs(bytes@) is None,
        },
{
    let n = bytes.len();
    let mut out: Vec<(Vec<u8>, Vec<u8>)> = Vec::new();
    let mut p: usize = 0;
    proof {
        assert(bytes@.skip(0) =~= bytes@);
        assert(byte_pair_views(out@) =~= Seq::<(Seq<u8>, Seq<u8>)>::empty());
    }
    loop
        invariant
            p <= bytes@.len(),
            n == bytes@.len(),
            dec_pairs(bytes@) == with_rest(
                byte_pair_views(out@),
                dec_pairs(bytes@.skip(p as int)),
            ),
        decreases bytes@.len() - p,
    {
        let ghost tail = bytes@.skip(p as int);
        let ghost out0 = out@;
        match find_amp(bytes, p) {
            None => {
                let seg = sub_vec(bytes, p, bytes.len());
                proof {
                    assert(seg@ =~= tail);
                }
                match decode_pair(&seg) {
                    Some(pair) => {
                        let ghost pv = (pair.0@, pair.1@);
                        out.push(pair);
                        proof {
                            assert(dec_pairs(tail) == Some(seq![pv]));
                            assert(byte_pair_views(out@) =~= byte_pair_views(out0) + seq![pv]);
                        }
                        return Some(out);
                    },
                    None => {
                        proof {
                            assert(dec_pairs(tail) is None);
                        }
                        return None;
                    },
                }
            },
            Some(j) => {
                let seg = sub_vec(bytes, p, j);
                proof {
                    assert(seg@ =~= tail.take(j - p as int));
                    assert(bytes@.skip(j as int + 1) =~= tail.skip(j - p as int + 1));
                }
                match decode_pair(&seg) {
                    Some(pair) => {
                        let ghost pv = (pair.0@, pair.1@);
                        out.push(pair);
                        proof {
                            assert(dec_pairs(tail) == with_rest(
                                seq![pv],
                                dec_pairs(bytes@.skip(j as int + 1)),
                            ));
                            lemma_with_rest_assoc(
                                byte_pair_views(out0),
                                seq![pv],
                                dec_pairs(bytes@.skip(j as int + 1)),
                            );
                            assert(byte_pair_views(out0) + seq![pv] =~= byte_pair_views(out@));
                        }
                    },
                    None => {
                        proof {
                            assert(dec_pairs(tail) is None);
                        }
                        return None;
                    },
                }
                p = j + 1;
            },
        }
    }
}

/// Decodes a query string back into its key-value pairs: `None` when the
/// string is not a well-formed encoded query or a decoded key or value is
/// not valid UTF-8.
pub fn decode_query(s: &str) -> (r: Option<Vec<(String, String)>>)
    ensures
        match r {
            Some(v) => spec_decode_query(s@) == Some(views_of_pairs(v@)),
            None => spec_decode_query(s@) is None,
        },
{
    let bytes = s.as_bytes_vec();
    if bytes.len() == 0 {
        let empty: Vec<(String, String)> = Vec::new();
        proof {
            assert(views_of_pairs(empty@) =~= Seq::<(Seq<char>, Seq<char>)>::empty());
            assert(spec_decode_query(s@) == Some(views_of_pairs(empty@)));
        }
        return Some(empty);
    }
    let bpairs = match decode_pairs_bytes(&bytes) {
        Some(v) => v,
        None => {
            return None;
        },
    };
    let ghost bvs = byte_pair_views(bpairs@);
    let mut out: Vec<(String, String)> = Vec::new();
    let mut i: usize = 0;
    while i < bpairs.len()
        invariant
            i <= bpairs@.len(),
            bvs == byte_pair_views(bpairs@),
            bytes@ == s.spec_bytes(),
            bytes@.len() > 0,
            dec_pairs(bytes@) == Some(bvs),
            out@.len() == i,
            forall|j: int|
                0 <= j < i ==> valid_utf8((#[trigger] bvs[j]).0) && valid_utf8(bvs[j].1),
            forall|j: int|
                0 <= j < i ==> (#[trigger] views_of_pairs(out@)[j]) == (
                    decode_utf8(bvs[j].0),
                    decode_utf8(bvs[j].1),
                ),
        decreases bpairs@.len() - i,
    {
        let item = &bpairs[i];
        let kb = sub_vec(&item.0, 0, item.0.len());
        let vb = sub_vec(&item.1, 0, item.1.len());
        proof {
            assert(kb@ =~= bvs[i as int].0);
            assert(vb@ =~= bvs[i as int].1);
        }
        let k = match crate::text::bytes_to_string(kb) {
            Some(k) => k,
            None => {
                proof {
                    assert(!valid_utf8(bvs[i as int].0));
                    assert(!(forall|j: int|
                        0 <= j < bvs.len() ==> valid_utf8((#[trigger] bvs[j]).0) && valid_utf8(
                            bvs[j].1,
                        )));
                    assert(bytes@ == s.spec_bytes());
                    assert(s.spec_bytes() == encode_utf8(s@));
                    assert(dec_query(encode_utf8(s@)) == Some(bvs));
                    assert(spec_decode_query(s@) is None);
                }
                return None;
            },
        };
        let v = match crate::text::bytes_to_string(vb) {
            Some(v) => v,
            None => {
                proof {
                    assert(!valid_utf8(bvs[i as int].1));
                    assert(!(forall|j: int|
                        0 <= j < bvs.len() ==> valid_utf8((#[trigger] bvs[j]).0) && valid_utf8(
                            bvs[j].1,
                        )));
                    assert(bytes@ == s.spec_bytes());
                    assert(s.spec_bytes() == encode_utf8(s@));
                    assert(dec_query(encode_utf8(s@)) == Some(bvs));
                    assert(spec_decode_query(s@) is None);
                }
                return None;
            },
        };
        let ghost kview = k@;
        let ghost vview = v@;
        let ghost out0 = out@;
        out.push((k, v));
        proof {
            vstd::utf8::encode_utf8_decode_utf8(kview);
            vstd::utf8::encode_utf8_decode_utf8(vview);
            assert(views_of_pairs(out@)[i as int] == (kview, vview));
            assert forall|j: int| 0 <= j < i + 1 implies (#[trigger] views_of_pairs(out@)[j]) == (
                decode_utf8(bvs[j].0),
                decode_utf8(bvs[j].1),
            ) by {
                if j < i {
                    assert(views_of_pairs(out@)[j] == views_of_pairs(out0)[j]);
                }
            }
        }
        i = i + 1;
    }
    proof {
        assert(bvs.map_values(|p: (Seq<u8>, Seq<u8>)| (decode_utf8(p.0), decode_utf8(p.1)))
            =~= views_of_pairs(out@));
    }
    Some(out)
}

} // verus!
