//! Percent-encoding of directory names, through the `urlencoding` crate.

use vstd::prelude::*;
use vstd::utf8::{decode_utf8, encode_utf8, is_ascii_chars, valid_utf8};

verus! {

/// Bytes that `urlencoding` leaves as they are: ASCII alphanumerics and `-._~`.
pub open spec fn url_safe_byte(b: u8) -> bool {
    ||| (48 <= b && b <= 57)
    ||| (65 <= b && b <= 90)
    ||| (97 <= b && b <= 122)
    ||| b == 45
    ||| b == 46
    ||| b == 95
    ||| b == 126
}

/// Upper-case hexadecimal digit for a value below 16.
pub open spec fn hex_upper_digit(d: u8) -> u8 {
    if d < 10 {
        (48 + d) as u8
    } else {
        (55 + d) as u8
    }
}

/// The bytes `urlencoding::encode` writes for `data`: every unsafe byte becomes
/// `%` followed by its two upper-case hex digits.
pub open spec fn url_encode_bytes(data: Seq<u8>) -> Seq<u8>
    decreases data.len(),
{
    if data.len() == 0 {
        Seq::empty()
    } else {
        let b = data[0];
        let head = if url_safe_byte(b) {
            seq![b]
        } else {
            seq![37u8, hex_upper_digit(b / 16), hex_upper_digit(b % 16)]
        };
        head + url_encode_bytes(data.drop_first())
    }
}

/// The encoded text, one character per output byte.
pub open spec fn url_encoded(data: Seq<u8>) -> Seq<char> {
    url_encode_bytes(data).map_values(|b: u8| b as char)
}

/// Value of an ASCII hex digit of either case.
pub open spec fn hex_value(b: u8) -> Option<u8> {
    if 48 <= b && b <= 57 {
        Some((b - 48) as u8)
    } else if 65 <= b && b <= 70 {
        Some((b - 55) as u8)
    } else if 97 <= b && b <= 102 {
        Some((b - 87) as u8)
    } else {
        None
    }
}

/// The bytes `urlencoding::decode_binary` gives back: `%` and two hex digits
/// become one byte; a `%` that is not followed by two hex digits stays literal.
pub open spec fn url_decode_bytes(data: Seq<u8>) -> Seq<u8>
    decreases data.len(),
{
    if data.len() == 0 {
        Seq::empty()
    } else if data[0] != 37 {
        seq![data[0]] + url_decode_bytes(data.drop_first())
    } else {
        let rest = data.drop_first();
        if rest.len() < 2 {
            seq![37u8] + rest
        } else if hex_value(rest[0]) is Some && hex_value(rest[1]) is Some {
            seq![(hex_value(rest[0])->0 * 16 + hex_value(rest[1])->0) as u8] + url_decode_bytes(
                rest.skip(2),
            )
        } else if hex_value(rest[0]) is Some {
            seq![37u8, rest[0]] + url_decode_bytes(rest.drop_first())
        } else {
            seq![37u8] + url_decode_bytes(rest)
        }
    }
}

/// `urlencoding::encode`: percent-encodes every byte of the UTF-8 form of
/// `data` except ASCII alphanumerics and `-`, `_`, `.`, `~`, with upper-case
/// hex digits. The contract states that encoding byte by byte.
#[verifier::external_body]
pub(crate) fn url_encode(data: &str) -> (r: String)
    ensures
        r@ == url_encoded(encode_utf8(data@)),
{
    urlencoding::encode(data).into_owned()
}

/// `urlencoding::decode`: undoes the percent-encoding of `data` byte by byte
/// (as `url_decode_bytes` states) and gives the text when the bytes are valid
/// UTF-8, `None` when they are not.
#[verifier::external_body]
pub(crate) fn url_decode(data: &str) -> (r: Option<String>)
    ensures
        r is Some <==> valid_utf8(url_decode_bytes(encode_utf8(data@))),
        r matches Some(s) ==> s@ == decode_utf8(url_decode_bytes(encode_utf8(data@))),
{
    urlencoding::decode(data).ok().map(|s| s.into_owned())
}

proof fn lemma_hex_digit_value(d: u8)
    requires
        d < 16,
    ensures
        hex_value(hex_upper_digit(d)) == Some(d),
        !url_safe_byte(37),
{
}

/// Every byte `url_encode_bytes` writes is ASCII.
pub proof fn lemma_url_encode_ascii(data: Seq<u8>)
    ensures
        forall|k: int|
            0 <= k < url_encode_bytes(data).len() ==> #[trigger] url_encode_bytes(data)[k] < 128,
    decreases data.len(),
{
    if data.len() > 0 {
        lemma_url_encode_ascii(data.drop_first());
        let b = data[0];
        let head = if url_safe_byte(b) {
            seq![b]
        } else {
            seq![37u8, hex_upper_digit(b / 16), hex_upper_digit(b % 16)]
        };
        let tail = url_encode_bytes(data.drop_first());
        assert(url_encode_bytes(data) == head + tail);
        assert forall|k: int| 0 <= k < url_encode_bytes(data).len() implies #[trigger] url_encode_bytes(
            data,
        )[k] < 128 by {
            if k >= head.len() {
                assert(url_encode_bytes(data)[k] == tail[k - head.len()]);
            }
        }
    }
}

/// The encoded text is ASCII, and its UTF-8 bytes are exactly the encoded bytes.
pub proof fn lemma_url_encoded_bytes(data: Seq<u8>)
    ensures
        is_ascii_chars(url_encoded(data)),
        encode_utf8(url_encoded(data)) == url_encode_bytes(data),
        url_encoded(data).len() == url_encode_bytes(data).len(),
{
    lemma_url_encode_ascii(data);
    let e = url_encode_bytes(data);
    let c = url_encoded(data);
    assert forall|k: int| 0 <= k < c.len() implies '\0' <= #[trigger] c[k] <= '\u{7f}' by {
        assert(e[k] < 128);
    }
    vstd::utf8::is_ascii_chars_encode_utf8(c);
    assert forall|k: int| 0 <= k < c.len() implies #[trigger] encode_utf8(c)[k] == e[k] by {
        assert(c[k] as u8 == encode_utf8(c)[k]);
        assert(e[k] < 128);
        assert((e[k] as char) as u8 == e[k]);
    }
    assert(encode_utf8(c) =~= e);
}

/// Decoding what was encoded gives the original bytes back.
pub proof fn lemma_url_decode_encode(data: Seq<u8>)
    ensures
        url_decode_bytes(url_encode_bytes(data)) == data,
    decreases data.len(),
{
    if data.len() > 0 {
        let b = data[0];
        let tail = url_encode_bytes(data.drop_first());
        lemma_url_decode_encode(data.drop_first());
        let e = url_encode_bytes(data);
        if url_safe_byte(b) {
            assert(e == seq![b] + tail);
            assert(b != 37);
            assert(e.drop_first() =~= tail);
            assert(url_decode_bytes(e) =~= seq![b] + data.drop_first());
        } else {
            let hi = hex_upper_digit(b / 16);
            let lo = hex_upper_digit(b % 16);
            assert(e == seq![37u8, hi, lo] + tail);
            lemma_hex_digit_value(b / 16);
            lemma_hex_digit_value(b % 16);
            let rest = e.drop_first();
            assert(rest[0] == hi && rest[1] == lo);
            assert(rest.skip(2) =~= tail);
            assert(((b / 16) * 16 + b % 16) as u8 == b);
            assert(url_decode_bytes(e) =~= seq![b] + data.drop_first());
        }
        assert(seq![b] + data.drop_first() =~= data);
    }
}

/// Bytes without `%` decode to themselves.
pub proof fn lemma_url_decode_plain(data: Seq<u8>)
    requires
        forall|k: int| 0 <= k < data.len() ==> #[trigger] data[k] != 37,
    ensures
        url_decode_bytes(data) == data,
    decreases data.len(),
{
    if data.len() > 0 {
        assert(data[0] != 37);
        lemma_url_decode_plain(data.drop_first());
        assert(seq![data[0]] + data.drop_first() =~= data);
    }
}

} // verus!
