//! Percent-encoding of text for a URL, done by `urlencoding`.
//!
//! The spec functions say, on the bytes of the UTF-8 encoding, what
//! encoding and decoding give. The two functions that call `urlencoding`
//! are trusted to return that.

use vstd::prelude::*;
use vstd::utf8::decode_utf8;
use vstd::utf8::encode_utf8;
use vstd::utf8::encode_utf8_decode_utf8;
use vstd::utf8::encode_utf8_valid_utf8;
use vstd::utf8::is_ascii_chars;
use vstd::utf8::is_ascii_chars_encode_utf8;
use vstd::utf8::valid_utf8;
use crate::numeral::digit_char;

verus! {

/// The bytes that stand for themselves in encoded text: the ASCII letters
/// and digits, and `-`, `.`, `_`, `~`.
pub open spec fn is_unreserved(b: u8) -> bool {
    ||| ('0' as u8) <= b <= ('9' as u8)
    ||| ('A' as u8) <= b <= ('Z' as u8)
    ||| ('a' as u8) <= b <= ('z' as u8)
    ||| b == ('-' as u8)
    ||| b == ('.' as u8)
    ||| b == ('_' as u8)
    ||| b == ('~' as u8)
}

/// The hexadecimal digit, in upper case, for a number below sixteen.
pub open spec fn hex_digit(v: u8) -> char
    recommends
        v < 16,
{
    if v < 10 {
        digit_char(v as nat)
    } else if v == 10 {
        'A'
    } else if v == 11 {
        'B'
    } else if v == 12 {
        'C'
    } else if v == 13 {
        'D'
    } else if v == 14 {
        'E'
    } else {
        'F'
    }
}

/// What one byte becomes in encoded text: itself where it is unreserved,
/// else `%` and its two hexadecimal digits.
pub open spec fn encoded_byte(b: u8) -> Seq<char> {
    if is_unreserved(b) {
        seq![b as char]
    } else {
        seq!['%', hex_digit(b / 16), hex_digit(b % 16)]
    }
}

/// The encoded text for a sequence of bytes: each byte's text, in order.
pub open spec fn percent_encoded(bytes: Seq<u8>) -> Seq<char>
    decreases bytes.len(),
{
    if bytes.len() == 0 {
        Seq::empty()
    } else {
        encoded_byte(bytes[0]) + percent_encoded(bytes.skip(1))
    }
}

/// The number that a hexadecimal digit stands for, in either case.
pub open spec fn hex_value(b: u8) -> Option<u8> {
    if ('0' as u8) <= b <= ('9' as u8) {
        Some((b - ('0' as u8)) as u8)
    } else if ('A' as u8) <= b <= ('F' as u8) {
        Some((b - ('A' as u8) + 10) as u8)
    } else if ('a' as u8) <= b <= ('f' as u8) {
        Some((b - ('a' as u8) + 10) as u8)
    } else {
        None
    }
}

/// `bytes` begins with an escape: `%` and two hexadecimal digits.
pub open spec fn starts_with_escape(bytes: Seq<u8>) -> bool {
    &&& bytes.len() >= 3
    &&& bytes[0] == ('%' as u8)
    &&& hex_value(bytes[1]) is Some
    &&& hex_value(bytes[2]) is Some
}

/// The decoded bytes: each escape becomes the byte that its two digits
/// write, and every other byte stays, a `%` that begins no escape too.
pub open spec fn percent_decoded(bytes: Seq<u8>) -> Seq<u8>
    decreases bytes.len(),
{
    if bytes.len() == 0 {
        Seq::empty()
    } else if starts_with_escape(bytes) {
        seq![(hex_value(bytes[1])->0 * 16 + hex_value(bytes[2])->0) as u8] + percent_decoded(
            bytes.skip(3),
        )
    } else {
        seq![bytes[0]] + percent_decoded(bytes.skip(1))
    }
}

/// Calls `urlencoding::encode`. Trusted: the result is the encoded text of
/// the UTF-8 bytes of `text`, as [`percent_encoded`] defines it.
#[verifier::external_body]
pub(crate) fn encode(text: &str) -> (encoded: String)
    ensures
        encoded@ == percent_encoded(encode_utf8(text@)),
{
    urlencoding::encode(text).into_owned()
}

/// Calls `urlencoding::decode`. Trusted: the call succeeds exactly where
/// the decoded bytes, as [`percent_decoded`] defines them, are valid UTF-8,
/// and the result is then the text that those bytes encode.
#[verifier::external_body]
pub(crate) fn decode(text: &str) -> (decoded: Option<String>)
    ensures
        decoded is Some <==> valid_utf8(percent_decoded(encode_utf8(text@))),
        decoded matches Some(t) ==> encode_utf8(t@) == percent_decoded(encode_utf8(text@)),
{
    urlencoding::decode(text).ok().map(|t| t.into_owned())
}

/// A hexadecimal digit is an ASCII character that stands for its number.
proof fn lemma_hex_digit(v: u8)
    requires
        v < 16,
    ensures
        '\0' <= hex_digit(v) <= '\u{7f}',
        hex_digit(v) != '%',
        hex_value(hex_digit(v) as u8) == Some(v),
{
}

/// Encoded text is made of ASCII characters.
proof fn lemma_encoded_is_ascii(bytes: Seq<u8>)
    ensures
        is_ascii_chars(percent_encoded(bytes)),
    decreases bytes.len(),
{
    if bytes.len() > 0 {
        lemma_encoded_is_ascii(bytes.skip(1));
        lemma_hex_digit(bytes[0] / 16);
        lemma_hex_digit(bytes[0] % 16);
        let head = encoded_byte(bytes[0]);
        let tail = percent_encoded(bytes.skip(1));
        assert forall|i: int| 0 <= i < (head + tail).len() implies '\0' <= #[trigger] (head
            + tail)[i] <= '\u{7f}' by {
            if i >= head.len() {
                assert((head + tail)[i] == tail[i - head.len()]);
            }
        }
    }
}

/// Decoding the bytes of encoded text gives back the bytes that were
/// encoded.
proof fn lemma_decoding_undoes_encoding_of_bytes(bytes: Seq<u8>)
    ensures
        percent_decoded(encode_utf8(percent_encoded(bytes))) == bytes,
    decreases bytes.len(),
{
    let encoded = percent_encoded(bytes);
    let written = encode_utf8(encoded);
    lemma_encoded_is_ascii(bytes);
    is_ascii_chars_encode_utf8(encoded);
    if bytes.len() == 0 {
        assert(percent_decoded(written) =~= bytes);
    } else {
        let first = bytes[0];
        let head = encoded_byte(first);
        let tail = percent_encoded(bytes.skip(1));
        let rest = encode_utf8(tail);
        lemma_encoded_is_ascii(bytes.skip(1));
        is_ascii_chars_encode_utf8(tail);
        lemma_decoding_undoes_encoding_of_bytes(bytes.skip(1));
        lemma_hex_digit(first / 16);
        lemma_hex_digit(first % 16);
        assert forall|i: int| 0 <= i < rest.len() implies written[head.len() + i] == rest[i] by {
            assert(encoded[head.len() + i] == tail[i]);
        }
        assert(written.skip(head.len() as int) =~= rest);
        if is_unreserved(first) {
            assert(written[0] == encoded[0] as u8);
            assert(written[0] == first);
            assert(!starts_with_escape(written));
        } else {
            assert(written[0] == encoded[0] as u8);
            assert(written[1] == encoded[1] as u8);
            assert(written[2] == encoded[2] as u8);
            assert(starts_with_escape(written));
            assert((first / 16) * 16 + first % 16 == first);
        }
        assert(percent_decoded(written) =~= seq![first] + bytes.skip(1));
        assert(seq![first] + bytes.skip(1) =~= bytes);
    }
}

/// Decoding the encoded form of a text gives the text back: whoever
/// decodes the last segment of a request's URL reads the URI that was
/// encoded into it.
pub proof fn lemma_decoding_undoes_encoding(text: Seq<char>)
    ensures
        valid_utf8(percent_decoded(encode_utf8(percent_encoded(encode_utf8(text))))),
        decode_utf8(percent_decoded(encode_utf8(percent_encoded(encode_utf8(text))))) == text,
{
    lemma_decoding_undoes_encoding_of_bytes(encode_utf8(text));
    encode_utf8_valid_utf8(text);
    encode_utf8_decode_utf8(text);
}

} // verus!
