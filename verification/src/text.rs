//! Small text-building blocks shared by the pipeline: decimal rendering of
//! integers and the bridge between byte sequences and `String`s.

use vstd::prelude::*;
use vstd::utf8::{decode_utf8, encode_utf8, valid_utf8};

verus! {

/// The character for one decimal digit.
pub open spec fn digit_char(d: int) -> char {
    if d == 0 {
        '0'
    } else if d == 1 {
        '1'
    } else if d == 2 {
        '2'
    } else if d == 3 {
        '3'
    } else if d == 4 {
        '4'
    } else if d == 5 {
        '5'
    } else if d == 6 {
        '6'
    } else if d == 7 {
        '7'
    } else if d == 8 {
        '8'
    } else {
        '9'
    }
}

/// Decimal rendering of a natural number, without leading zeroes.
pub open spec fn spec_udec(n: nat) -> Seq<char>
    decreases n,
{
    if n < 10 {
        seq![digit_char(n as int)]
    } else {
        spec_udec(n / 10).push(digit_char((n % 10) as int))
    }
}

/// Decimal rendering of an integer: a leading minus sign when negative.
pub open spec fn spec_idec(n: int) -> Seq<char> {
    if n < 0 {
        seq!['-'] + spec_udec((-n) as nat)
    } else {
        spec_udec(n as nat)
    }
}

/// The last `w` decimal digits of `n`, zero padded to exactly width `w`.
pub open spec fn spec_pad(n: nat, w: nat) -> Seq<char>
    decreases w,
{
    if w == 0 {
        seq![]
    } else {
        spec_pad(n / 10, (w - 1) as nat).push(digit_char((n % 10) as int))
    }
}

/// One decimal digit as a string slice.
fn digit_str(d: u32) -> (r: &'static str)
    requires
        d < 10,
    ensures
        r@ == seq![digit_char(d as int)],
{
    proof {
        reveal_strlit("0");
        reveal_strlit("1");
        reveal_strlit("2");
        reveal_strlit("3");
        reveal_strlit("4");
        reveal_strlit("5");
        reveal_strlit("6");
        reveal_strlit("7");
        reveal_strlit("8");
        reveal_strlit("9");
        assert("0"@ =~= seq!['0']);
        assert("1"@ =~= seq!['1']);
        assert("2"@ =~= seq!['2']);
        assert("3"@ =~= seq!['3']);
        assert("4"@ =~= seq!['4']);
        assert("5"@ =~= seq!['5']);
        assert("6"@ =~= seq!['6']);
        assert("7"@ =~= seq!['7']);
        assert("8"@ =~= seq!['8']);
        assert("9"@ =~= seq!['9']);
    }
    match d {
        0 => "0",
        1 => "1",
        2 => "2",
        3 => "3",
        4 => "4",
        5 => "5",
        6 => "6",
        7 => "7",
        8 => "8",
        _ => "9",
    }
}

/// Decimal rendering of an unsigned number.
pub fn u32_to_string(n: u32) -> (r: String)
    ensures
        r@ == spec_udec(n as nat),
    decreases n,
{
    if n < 10 {
        String::from_str(digit_str(n))
    } else {
        let prefix = u32_to_string(n / 10);
        let r = prefix.concat(digit_str(n % 10));
        proof {
            assert(r@ =~= spec_udec(n as nat));
        }
        r
    }
}

/// Decimal rendering of a signed number.
pub fn i32_to_string(n: i32) -> (r: String)
    ensures
        r@ == spec_idec(n as int),
{
    if n >= 0 {
        u32_to_string(n as u32)
    } else {
        let wide: i64 = n as i64;
        let mag: u32 = (-wide) as u32;
        proof {
            reveal_strlit("-");
            assert("-"@ =~= seq!['-']);
        }
        let r = String::from_str("-").concat(u32_to_string(mag).as_str());
        proof {
            assert(r@ =~= spec_idec(n as int));
        }
        r
    }
}

/// Zero-padded decimal rendering of `n` to exactly `w` digits.
pub fn pad_to_string(n: u32, w: u32) -> (r: String)
    ensures
        r@ == spec_pad(n as nat, w as nat),
    decreases w,
{
    if w == 0 {
        let r = String::new();
        proof {
            assert(r@ =~= spec_pad(n as nat, 0));
        }
        r
    } else {
        let prefix = pad_to_string(n / 10, w - 1);
        let r = prefix.concat(digit_str(n % 10));
        proof {
            assert(r@ =~= spec_pad(n as nat, w as nat));
        }
        r
    }
}

/// The characters spelled by a sequence of ASCII bytes.
pub open spec fn ascii_chars_of(b: Seq<u8>) -> Seq<char> {
    Seq::new(b.len(), |i: int| b[i] as char)
}

/// Every byte is in the ASCII range.
pub open spec fn all_ascii(b: Seq<u8>) -> bool {
    forall|i: int| 0 <= i < b.len() ==> b[i] < 128
}

/// The UTF-8 encoding of ASCII bytes read as characters is those bytes.
pub proof fn lemma_ascii_encode(b: Seq<u8>)
    requires
        all_ascii(b),
    ensures
        encode_utf8(ascii_chars_of(b)) == b,
    decreases b.len(),
{
    if b.len() == 0 {
        assert(encode_utf8(ascii_chars_of(b)) =~= b);
    } else {
        lemma_ascii_encode(b.drop_first());
        assert(ascii_chars_of(b).drop_first() =~= ascii_chars_of(b.drop_first()));
        let c = b[0] as char;
        let s: u32 = c as u32;
        assert(s == b[0] as u32);
        assert((s & 0x7F) == s) by (bit_vector)
            requires
                s < 128u32,
        ;
        assert(vstd::utf8::encode_scalar(s) =~= seq![b[0]]);
        assert(encode_utf8(ascii_chars_of(b)) =~= b);
    }
}

/// Relies on `String::from_utf8`: it returns the string whose UTF-8
/// encoding is exactly the given bytes, and fails exactly when the bytes
/// are not valid UTF-8.
#[verifier::external_body]
pub(crate) fn bytes_to_string(b: Vec<u8>) -> (r: Option<String>)
    ensures
        r is Some <==> valid_utf8(b@),
        r matches Some(s) ==> encode_utf8(s@) == b@,
{
    String::from_utf8(b).ok()
}

/// The base64 alphabet: `A`-`Z`, `a`-`z`, `0`-`9`, `+`, `/`.
pub open spec fn b64_char(v: u8) -> u8
    recommends
        v < 64,
{
    if v < 26 {
        (65 + v) as u8
    } else if v < 52 {
        (71 + v) as u8
    } else if v < 62 {
        (v - 4) as u8
    } else if v == 62 {
        43
    } else {
        47
    }
}

/// Standard base64 with `=` padding: three bytes become four characters,
/// a trailing group of one or two bytes is padded.
pub open spec fn spec_b64(s: Seq<u8>) -> Seq<u8>
    decreases s.len(),
{
    if s.len() == 0 {
        seq![]
    } else if s.len() == 1 {
        seq![b64_char(s[0] / 4), b64_char(((s[0] % 4) * 16) as u8), 61u8, 61u8]
    } else if s.len() == 2 {
        seq![
            b64_char(s[0] / 4),
            b64_char(((s[0] % 4) * 16 + s[1] / 16) as u8),
            b64_char(((s[1] % 16) * 4) as u8),
            61u8,
        ]
    } else {
        seq![
            b64_char(s[0] / 4),
            b64_char(((s[0] % 4) * 16 + s[1] / 16) as u8),
            b64_char(((s[1] % 16) * 4 + s[2] / 64) as u8),
            b64_char((s[2] % 64) as u8),
        ] + spec_b64(s.skip(3))
    }
}

/// Base64 output is ASCII throughout.
pub proof fn lemma_b64_ascii(s: Seq<u8>)
    ensures
        all_ascii(spec_b64(s)),
    decreases s.len(),
{
    if s.len() > 3 {
        lemma_b64_ascii(s.skip(3));
    } else if s.len() == 3 {
        lemma_b64_ascii(s.skip(3));
    }
}

/// Encodes bytes in base64.
pub fn base64_encode(s: &Vec<u8>) -> (r: Vec<u8>)
    ensures
        r@ == spec_b64(s@),
{
    let mut out: Vec<u8> = Vec::new();
    let mut i: usize = 0;
    proof {
        assert(s@.skip(0) =~= s@);
        assert(out@ + spec_b64(s@) =~= spec_b64(s@));
    }
    while s.len() - i >= 3
        invariant
            i <= s@.len(),
            spec_b64(s@) == out@ + spec_b64(s@.skip(i as int)),
        decreases s@.len() - i,
    {
        let ghost tail = s@.skip(i as int);
        let ghost out0 = out@;
        let b0 = s[i];
        let b1 = s[i + 1];
        let b2 = s[i + 2];
        proof {
            assert(tail[0] == b0 && tail[1] == b1 && tail[2] == b2);
        }
        out.push(b64_char_exec(b0 / 4));
        out.push(b64_char_exec((b0 % 4) * 16 + b1 / 16));
        out.push(b64_char_exec((b1 % 16) * 4 + b2 / 64));
        out.push(b64_char_exec(b2 % 64));
        proof {
            assert(tail.skip(3) =~= s@.skip(i as int + 3));
            assert(out@ =~= out0 + seq![
                b64_char(b0 / 4),
                b64_char(((b0 % 4) * 16 + b1 / 16) as u8),
                b64_char(((b1 % 16) * 4 + b2 / 64) as u8),
                b64_char((b2 % 64) as u8),
            ]);
            assert(spec_b64(s@) =~= out@ + spec_b64(s@.skip(i as int + 3)));
        }
        i = i + 3;
    }
    let ghost tail = s@.skip(i as int);
    if s.len() - i == 1 {
        let b0 = s[i];
        proof {
            assert(tail.len() == 1 && tail[0] == b0);
        }
        out.push(b64_char_exec(b0 / 4));
        out.push(b64_char_exec((b0 % 4) * 16));
        out.push(61);
        out.push(61);
        proof {
            assert(out@ =~= spec_b64(s@));
        }
    } else if s.len() - i == 2 {
        let b0 = s[i];
        let b1 = s[i + 1];
        proof {
            assert(tail.len() == 2 && tail[0] == b0 && tail[1] == b1);
        }
        out.push(b64_char_exec(b0 / 4));
        out.push(b64_char_exec((b0 % 4) * 16 + b1 / 16));
        out.push(b64_char_exec((b1 % 16) * 4));
        out.push(61);
        proof {
            assert(out@ =~= spec_b64(s@));
        }
    } else {
        proof {
            assert(tail.len() == 0);
            assert(out@ =~= spec_b64(s@));
        }
    }
    out
}

/// The base64 alphabet.
fn b64_char_exec(v: u8) -> (r: u8)
    requires
        v < 64,
    ensures
        r == b64_char(v),
{
    if v < 26 {
        65 + v
    } else if v < 52 {
        71 + v
    } else if v < 62 {
        v - 4
    } else if v == 62 {
        43
    } else {
        47
    }
}

/// Builds the string spelled by a sequence of ASCII bytes.
pub fn ascii_string(b: Vec<u8>) -> (r: String)
    requires
        all_ascii(b@),
    ensures
        r@ == ascii_chars_of(b@),
{
    let ghost b0 = b@;
    proof {
        lemma_ascii_encode(b0);
        vstd::utf8::encode_utf8_valid_utf8(ascii_chars_of(b0));
    }
    match bytes_to_string(b) {
        Some(s) => {
            proof {
                vstd::utf8::encode_utf8_decode_utf8(ascii_chars_of(b0));
                vstd::utf8::encode_utf8_decode_utf8(s@);
                assert(decode_utf8(encode_utf8(s@)) == decode_utf8(encode_utf8(ascii_chars_of(
                    b0,
                ))));
            }
            s
        },
        None => {
            proof {
                assert(false);
            }
            String::new()
        },
    }
}

} // verus!
