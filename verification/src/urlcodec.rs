//! Percent-encoding of key segments, as done by the `urlencoding` crate.
//!
//! `encode` percent-encodes every UTF-8 byte except ASCII alphanumerics and
//! `-`, `.`, `_`, `~`, writing upper-case hex digits.  `decode` turns every
//! well-formed `%XX` escape back into its byte and keeps anything else
//! verbatim, then requires the bytes to be valid UTF-8.

use vstd::prelude::*;
use vstd::utf8::*;

verus! {

/// Bytes that `urlencoding::encode` leaves unescaped.
pub open spec fn is_unreserved_byte(b: u8) -> bool {
    ||| (48 <= b <= 57)  // '0'..='9'
    ||| (65 <= b <= 90)  // 'A'..='Z'
    ||| (97 <= b <= 122)  // 'a'..='z'
    ||| b == 45  // '-'
    ||| b == 46  // '.'
    ||| b == 95  // '_'
    ||| b == 126  // '~'
}

/// The byte of `'%'`.
pub open spec fn percent_byte() -> u8 {
    37
}

/// Upper-case hex digit (as an ASCII byte) of a nibble.
pub open spec fn hex_digit_upper(n: u8) -> u8
    recommends
        n < 16,
{
    if n < 10 {
        (48 + n) as u8
    } else {
        (55 + n) as u8
    }
}

/// Value of an ASCII hex digit, either case.
pub open spec fn hex_value(b: u8) -> Option<u8> {
    if 48 <= b <= 57 {
        Some((b - 48) as u8)
    } else if 65 <= b <= 70 {
        Some((b - 55) as u8)
    } else if 97 <= b <= 102 {
        Some((b - 87) as u8)
    } else {
        None
    }
}

/// Percent-encoding of a byte string, as ASCII bytes.
pub open spec fn percent_encode_bytes(bytes: Seq<u8>) -> Seq<u8>
    decreases bytes.len(),
{
    if bytes.len() == 0 {
        seq![]
    } else {
        let b = bytes[0];
        let chunk = if is_unreserved_byte(b) {
            seq![b]
        } else {
            seq![percent_byte(), hex_digit_upper(b >> 4), hex_digit_upper(b & 15)]
        };
        chunk + percent_encode_bytes(bytes.drop_first())
    }
}

/// Percent-decoding of a byte string: well-formed `%XX` escapes become one
/// byte, everything else is kept.
pub open spec fn percent_decode_bytes(bytes: Seq<u8>) -> Seq<u8>
    decreases bytes.len(),
{
    if bytes.len() == 0 {
        seq![]
    } else if bytes[0] != percent_byte() {
        seq![bytes[0]] + percent_decode_bytes(bytes.drop_first())
    } else if bytes.len() >= 3 && hex_value(bytes[1]) is Some && hex_value(bytes[2]) is Some {
        seq![((hex_value(bytes[1])->0 << 4u8) | hex_value(bytes[2])->0) as u8]
            + percent_decode_bytes(bytes.subrange(3, bytes.len() as int))
    } else if bytes.len() >= 3 && hex_value(bytes[1]) is Some {
        seq![percent_byte(), bytes[1]] + percent_decode_bytes(bytes.subrange(2, bytes.len() as int))
    } else {
        seq![percent_byte()] + percent_decode_bytes(bytes.drop_first())
    }
}

/// ASCII bytes read as characters.
pub open spec fn ascii_chars(bytes: Seq<u8>) -> Seq<char> {
    bytes.map_values(|b: u8| b as char)
}

/// What `urlencoding::encode` returns for `s`.
pub open spec fn url_encode(s: Seq<char>) -> Seq<char> {
    ascii_chars(percent_encode_bytes(encode_utf8(s)))
}

/// What `urlencoding::decode` returns for `s`: `None` when the decoded bytes
/// are not valid UTF-8.
pub open spec fn url_decode(s: Seq<char>) -> Option<Seq<char>> {
    let bytes = percent_decode_bytes(encode_utf8(s));
    if valid_utf8(bytes) {
        Some(decode_utf8(bytes))
    } else {
        None
    }
}

/// Characters that can occur in the output of `url_encode`.
pub open spec fn is_encoded_char(c: char) -> bool {
    ||| ('0' <= c <= '9')
    ||| ('A' <= c <= 'Z')
    ||| ('a' <= c <= 'z')
    ||| c == '-'
    ||| c == '.'
    ||| c == '_'
    ||| c == '~'
    ||| c == '%'
}

/// The error `urlencoding::decode` reports for escapes that are not UTF-8.
#[verifier::external_type_specification]
#[verifier::external_body]
pub struct ExFromUtf8Error(std::string::FromUtf8Error);

/// `urlencoding::encode(value).into_owned()`: the result is exactly
/// [`url_encode`] of the input, as the crate's documentation and source show.
#[verifier::external_body]
pub(crate) fn encode(value: &str) -> (res: String)
    ensures
        res@ == url_encode(value@),
{
    urlencoding::encode(value).into_owned()
}

/// `urlencoding::decode(value)`, owned: `Ok` with [`url_decode`] of the
/// input when that is defined, else the crate's UTF-8 error.
#[verifier::external_body]
pub(crate) fn decode(value: &str) -> (res: Result<String, std::string::FromUtf8Error>)
    ensures
        res is Ok <==> url_decode(value@) is Some,
        res matches Ok(s) ==> s@ == url_decode(value@)->0,
{
    urlencoding::decode(value).map(|value| value.into_owned())
}

/// The text `FromUtf8Error`'s `Display` gives; nothing is stated of it.
#[verifier::external_body]
pub(crate) fn utf8_error_text(e: &std::string::FromUtf8Error) -> String {
    e.to_string()
}

proof fn lemma_percent_encode_bytes_ascii(bytes: Seq<u8>)
    ensures
        forall|i: int|
            0 <= i < percent_encode_bytes(bytes).len() ==> {
                let b = #[trigger] percent_encode_bytes(bytes)[i];
                is_unreserved_byte(b) || b == percent_byte()
            },
    decreases bytes.len(),
{
    if bytes.len() > 0 {
        let b = bytes[0];
        lemma_percent_encode_bytes_ascii(bytes.drop_first());
        let hi = b >> 4;
        let lo = b & 15;
        assert(hi < 16 && lo < 16) by (bit_vector)
            requires
                hi == b >> 4,
                lo == b & 15,
        ;
        let chunk = if is_unreserved_byte(b) {
            seq![b]
        } else {
            seq![percent_byte(), hex_digit_upper(hi), hex_digit_upper(lo)]
        };
        let rest = percent_encode_bytes(bytes.drop_first());
        assert(percent_encode_bytes(bytes) == chunk + rest);
        assert forall|i: int| 0 <= i < (chunk + rest).len() implies {
            let c = #[trigger] (chunk + rest)[i];
            is_unreserved_byte(c) || c == percent_byte()
        } by {
            if i >= chunk.len() {
                assert((chunk + rest)[i] == rest[i - chunk.len()]);
            }
        }
    }
}

/// Every character of an encoded segment is an unreserved ASCII character or
/// `'%'`; in particular it holds no `'/'`, `'@'` or `':'`.
pub proof fn lemma_url_encode_chars(s: Seq<char>)
    ensures
        forall|i: int| 0 <= i < url_encode(s).len() ==> is_encoded_char(#[trigger] url_encode(s)[i]),
{
    let bytes = percent_encode_bytes(encode_utf8(s));
    lemma_percent_encode_bytes_ascii(encode_utf8(s));
    assert forall|i: int| 0 <= i < url_encode(s).len() implies is_encoded_char(
        #[trigger] url_encode(s)[i],
    ) by {
        let b = bytes[i];
        assert(is_unreserved_byte(b) || b == percent_byte());
        assert(url_encode(s)[i] == b as char);
    }
}

proof fn lemma_ascii_chars_utf8(bytes: Seq<u8>)
    requires
        forall|i: int| 0 <= i < bytes.len() ==> #[trigger] bytes[i] < 128,
    ensures
        encode_utf8(ascii_chars(bytes)) == bytes,
{
    let chars = ascii_chars(bytes);
    assert(is_ascii_chars(chars)) by {
        assert forall|i| 0 <= i < chars.len() implies '\0' <= #[trigger] chars[i] <= '\u{7f}' by {
            assert(bytes[i] < 128);
        }
    }
    is_ascii_chars_encode_utf8(chars);
    assert forall|i: int| 0 <= i < bytes.len() implies encode_utf8(chars)[i] == bytes[i] by {
        assert(chars[i] == bytes[i] as char);
        assert(chars[i] as u8 == encode_utf8(chars)[i]);
    }
    assert(encode_utf8(chars) =~= bytes);
}

proof fn lemma_percent_decode_encode_bytes(bytes: Seq<u8>)
    ensures
        percent_decode_bytes(percent_encode_bytes(bytes)) == bytes,
    decreases bytes.len(),
{
    if bytes.len() > 0 {
        let b = bytes[0];
        let rest_in = bytes.drop_first();
        let rest = percent_encode_bytes(rest_in);
        lemma_percent_decode_encode_bytes(rest_in);
        if is_unreserved_byte(b) {
            let enc = seq![b] + rest;
            assert(percent_encode_bytes(bytes) == enc);
            assert(enc.drop_first() =~= rest);
            assert(enc[0] == b);
            assert(percent_decode_bytes(enc) == seq![b] + percent_decode_bytes(rest));
            assert(seq![b] + rest_in =~= bytes);
        } else {
            let hi = b >> 4;
            let lo = b & 15;
            assert(hi < 16 && lo < 16) by (bit_vector)
            requires
                hi == b >> 4,
                lo == b & 15,
        ;
            let h = hex_digit_upper(hi);
            let l = hex_digit_upper(lo);
            let enc = seq![percent_byte(), h, l] + rest;
            assert(percent_encode_bytes(bytes) == enc);
            assert(enc[0] == percent_byte() && enc[1] == h && enc[2] == l);
            assert(hex_value(h) == Some(hi));
            assert(hex_value(l) == Some(lo));
            assert(((hi << 4u8) | lo) as u8 == b) by (bit_vector)
                requires
                    hi == b >> 4,
                    lo == b & 15,
            ;
            assert(enc.subrange(3, enc.len() as int) =~= rest);
            assert(percent_decode_bytes(enc) == seq![b] + percent_decode_bytes(rest));
            assert(seq![b] + rest_in =~= bytes);
        }
    }
}

/// Decoding an encoded segment gives the segment back.
pub proof fn lemma_url_decode_encode(s: Seq<char>)
    ensures
        url_decode(url_encode(s)) == Some(s),
{
    let bytes = percent_encode_bytes(encode_utf8(s));
    lemma_percent_encode_bytes_ascii(encode_utf8(s));
    assert forall|i: int| 0 <= i < bytes.len() implies #[trigger] bytes[i] < 128 by {
        assert(is_unreserved_byte(bytes[i]) || bytes[i] == percent_byte());
    }
    lemma_ascii_chars_utf8(bytes);
    lemma_percent_decode_encode_bytes(encode_utf8(s));
    encode_utf8_valid_utf8(s);
    encode_utf8_decode_utf8(s);
}

} // verus!
