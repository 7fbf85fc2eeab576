//! Byte encodings: URL-safe base64 without padding, and lowercase hex.
use vstd::prelude::*;
use base64::Engine;
use crate::text::is_ws;

verus! {

/// The character of the URL-safe base64 alphabet for the 6-bit value `x`
/// (RFC 4648, section 5).
pub open spec fn b64_char(x: int) -> char {
    if x < 26 {
        ('A' as int + x) as char
    } else if x < 52 {
        ('a' as int + (x - 26)) as char
    } else if x < 62 {
        ('0' as int + (x - 52)) as char
    } else if x == 62 {
        '-'
    } else {
        '_'
    }
}

/// URL-safe base64 without padding: every three bytes become four
/// characters; a last one byte becomes two, a last two bytes three.
pub open spec fn base64_url(b: Seq<u8>) -> Seq<char>
    decreases b.len(),
{
    if b.len() == 0 {
        Seq::empty()
    } else if b.len() == 1 {
        seq![b64_char(b[0] as int / 4), b64_char((b[0] as int % 4) * 16)]
    } else if b.len() == 2 {
        seq![
            b64_char(b[0] as int / 4),
            b64_char((b[0] as int % 4) * 16 + b[1] as int / 16),
            b64_char((b[1] as int % 16) * 4),
        ]
    } else {
        seq![
            b64_char(b[0] as int / 4),
            b64_char((b[0] as int % 4) * 16 + b[1] as int / 16),
            b64_char((b[1] as int % 16) * 4 + b[2] as int / 64),
            b64_char(b[2] as int % 64),
        ] + base64_url(b.skip(3))
    }
}

/// Calls `base64::engine::general_purpose::URL_SAFE_NO_PAD.encode`, which
/// encodes with the URL-safe alphabet and writes no padding. It panics only
/// where the encoded length overflows `usize`, which the bound on the input
/// rules out.
#[verifier::external_body]
pub(crate) fn base64_url_encode(bytes: &[u8]) -> (r: String)
    requires
        bytes@.len() <= usize::MAX / 2,
    ensures
        r@ == base64_url(bytes@),
{
    base64::engine::general_purpose::URL_SAFE_NO_PAD.encode(bytes)
}

/// The lowercase hex digit for `x < 16`.
pub open spec fn hex_char(x: int) -> char {
    if x < 10 {
        ('0' as int + x) as char
    } else {
        ('a' as int + (x - 10)) as char
    }
}

/// Each byte as two lowercase hex digits (`format!("{byte:02x}")`).
pub open spec fn hex_lower(b: Seq<u8>) -> Seq<char>
    decreases b.len(),
{
    if b.len() == 0 {
        Seq::empty()
    } else {
        hex_lower(b.drop_last()) + seq![hex_char(b.last() as int / 16), hex_char(b.last() as int % 16)]
    }
}

fn hex_digit(x: u8) -> (s: &'static str)
    requires
        x < 16,
    ensures
        s@ == seq![hex_char(x as int)],
{
    proof {
        reveal_strlit("0");
        reveal_strlit("1");
        reveal_strlit("2");
        reveal_strlit("3");
        reveal_strlit("4");
        reveal_strlit("5");
        reveal_strlit("6");
        reveal_strlit("7");
        reveal_strlit("8");
        reveal_strlit("9");
        reveal_strlit("a");
        reveal_strlit("b");
        reveal_strlit("c");
        reveal_strlit("d");
        reveal_strlit("e");
        reveal_strlit("f");
    }
    if x == 0 {
        "0"
    } else if x == 1 {
        "1"
    } else if x == 2 {
        "2"
    } else if x == 3 {
        "3"
    } else if x == 4 {
        "4"
    } else if x == 5 {
        "5"
    } else if x == 6 {
        "6"
    } else if x == 7 {
        "7"
    } else if x == 8 {
        "8"
    } else if x == 9 {
        "9"
    } else if x == 10 {
        "a"
    } else if x == 11 {
        "b"
    } else if x == 12 {
        "c"
    } else if x == 13 {
        "d"
    } else if x == 14 {
        "e"
    } else {
        "f"
    }
}

/// The bytes as lowercase hex, two digits each.
pub fn hex_encode(bytes: &[u8]) -> (r: String)
    ensures
        r@ == hex_lower(bytes@),
{
    let mut out = String::new();
    let mut i: usize = 0;
    while i < bytes.len()
        invariant
            i <= bytes@.len(),
            out@ == hex_lower(bytes@.take(i as int)),
        decreases bytes@.len() - i,
    {
        let b = bytes[i];
        out.append(hex_digit(b / 16));
        out.append(hex_digit(b % 16));
        proof {
            assert(bytes@.take(i + 1).drop_last() =~= bytes@.take(i as int));
            assert(bytes@.take(i + 1).last() == b);
        }
        i = i + 1;
    }
    assert(bytes@.take(bytes@.len() as int) =~= bytes@);
    out
}


/// Every character of URL-safe base64 is a letter, a digit, `-` or `_`;
/// none is white space, and a non-empty input gives non-empty text.
pub proof fn lemma_base64_url_plain(b: Seq<u8>)
    ensures
        forall|i: int| 0 <= i < base64_url(b).len() ==> !is_ws(#[trigger] base64_url(b)[i]),
        b.len() > 0 ==> base64_url(b).len() > 0,
    decreases b.len(),
{
    assert forall|x: int| 0 <= x < 64 implies !is_ws(#[trigger] b64_char(x)) by {}
    if b.len() > 2 {
        lemma_base64_url_plain(b.skip(3));
        let head = seq![
            b64_char(b[0] as int / 4),
            b64_char((b[0] as int % 4) * 16 + b[1] as int / 16),
            b64_char((b[1] as int % 16) * 4 + b[2] as int / 64),
            b64_char(b[2] as int % 64),
        ];
        assert forall|i: int| 0 <= i < base64_url(b).len() implies !is_ws(#[trigger] base64_url(b)[i]) by {
            if i < 4 {
                assert(base64_url(b)[i] == head[i]);
            } else {
                assert(base64_url(b)[i] == base64_url(b.skip(3))[i - 4]);
            }
        }
    }
}

/// A character of the URL-safe base64 alphabet: an ASCII letter or digit,
/// `-` or `_`.
pub open spec fn is_url_safe_char(c: char) -> bool {
    ||| ('A' <= c && c <= 'Z')
    ||| ('a' <= c && c <= 'z')
    ||| ('0' <= c && c <= '9')
    ||| c == '-'
    ||| c == '_'
}

/// The length of unpadded base64 for `n` bytes: four characters per whole
/// group of three, and two or three for a last group of one or two bytes.
pub open spec fn base64_url_len(n: nat) -> nat {
    (n / 3) * 4 + if n % 3 == 1 {
        2nat
    } else if n % 3 == 2 {
        3nat
    } else {
        0nat
    }
}

/// URL-safe base64 of `b` has `base64_url_len(b.len())` characters, each of
/// the URL-safe alphabet; so the 32 random bytes of a generated token give
/// 43 such characters.
pub proof fn law_base64_url_shape(b: Seq<u8>)
    ensures
        base64_url(b).len() == base64_url_len(b.len()),
        forall|i: int| 0 <= i < base64_url(b).len() ==> is_url_safe_char(#[trigger] base64_url(b)[i]),
        b.len() == 32 ==> base64_url(b).len() == 43,
    decreases b.len(),
{
    assert forall|x: int| 0 <= x < 64 implies is_url_safe_char(#[trigger] b64_char(x)) by {}
    if b.len() > 2 {
        law_base64_url_shape(b.skip(3));
        let head = seq![
            b64_char(b[0] as int / 4),
            b64_char((b[0] as int % 4) * 16 + b[1] as int / 16),
            b64_char((b[1] as int % 16) * 4 + b[2] as int / 64),
            b64_char(b[2] as int % 64),
        ];
        assert(base64_url(b) == head + base64_url(b.skip(3)));
        assert(b.skip(3).len() == b.len() - 3);
        assert((b.len() - 3) / 3 == b.len() / 3 - 1);
        assert((b.len() - 3) % 3 == b.len() % 3);
        assert forall|i: int| 0 <= i < base64_url(b).len() implies is_url_safe_char(#[trigger] base64_url(b)[i]) by {
            if i < 4 {
                assert(base64_url(b)[i] == head[i]);
            } else {
                assert(base64_url(b)[i] == base64_url(b.skip(3))[i - 4]);
            }
        }
    }
}

/// The local gateway's auth token made of random bytes: their URL-safe
/// base64, without padding.
pub fn token_from_random(bytes: &[u8]) -> (r: String)
    requires
        bytes@.len() <= usize::MAX / 2,
    ensures
        r@ == base64_url(bytes@),
{
    base64_url_encode(bytes)
}

} // verus!
