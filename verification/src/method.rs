//! HTTP method tokens.
//!
//! A method is a token in the sense of RFC 9110: one or more characters out
//! of letters, digits and fifteen marks. Tokens are case-sensitive and are
//! passed on exactly as they were given.

use vstd::prelude::*;
use vstd::utf8::*;
use crate::error::{Error, ErrorKind, ErrorView};

verus! {

/// The characters a token is made of: ASCII letters and digits, and the marks
/// `! # $ % & ' * + - . ^ _ ` | ~`.
pub open spec fn is_tchar(c: char) -> bool {
    ||| 'a' <= c <= 'z'
    ||| 'A' <= c <= 'Z'
    ||| '0' <= c <= '9'
    ||| c == '!'
    ||| c == '#'
    ||| c == '$'
    ||| c == '%'
    ||| c == '&'
    ||| c == '\''
    ||| c == '*'
    ||| c == '+'
    ||| c == '-'
    ||| c == '.'
    ||| c == '^'
    ||| c == '_'
    ||| c == '`'
    ||| c == '|'
    ||| c == '~'
}

/// A method token as text: not empty, and token characters throughout.
pub open spec fn is_method_token(text: Seq<char>) -> bool {
    text.len() > 0 && forall|i: int| 0 <= i < text.len() ==> is_tchar(#[trigger] text[i])
}

/// A method token as bytes on the wire: not empty, and every byte the code of
/// a token character.
pub open spec fn is_token_bytes(bytes: Seq<u8>) -> bool {
    bytes.len() > 0 && forall|i: int| 0 <= i < bytes.len() ==> is_tchar(#[trigger] bytes[i] as char)
}

/// The failure reported for a method that is no token.
pub open spec fn invalid_method() -> ErrorView {
    ErrorView { kind: ErrorKind::InvalidMethod, message: "invalid HTTP method"@ }
}

/// `reqwest::Method::from_bytes`, with the parsed method handed back as its
/// name (`Method::as_str`) and the error as its display text.
///
/// Not proved, taken from the parser's source: it accepts exactly the
/// non-empty byte strings in which every byte is a token character; the name
/// of an accepted method is spelled with the very bytes that were given; the
/// error prints as a fixed sentence.
#[verifier::external_body]
fn method_from_bytes(bytes: &[u8]) -> (parsed: Result<String, String>)
    ensures
        parsed is Ok <==> is_token_bytes(bytes@),
        parsed matches Ok(name) ==> encode_utf8(name@) == bytes@,
        parsed matches Err(reason) ==> reason@ == "invalid HTTP method"@,
{
    match reqwest::Method::from_bytes(bytes) {
        Ok(method) => Ok(method.as_str().to_string()),
        Err(invalid) => Err(invalid.to_string()),
    }
}

/// Checks that `text` is a method token and returns it as the method to send.
///
/// The token is returned as written: nothing is trimmed and no letter changes
/// case. Text that is empty, or that holds a blank or any other character
/// outside the token set, is refused as [`ErrorKind::InvalidMethod`].
pub fn parse_method(text: &str) -> (parsed: Result<String, Error>)
    ensures
        match parsed {
            Ok(token) => is_method_token(text@) && token@ == text@,
            Err(error) => !is_method_token(text@) && error@ == invalid_method(),
        },
{
    let bytes = text.as_bytes();
    proof {
        lemma_token_encoding(text@);
    }
    match method_from_bytes(bytes) {
        Ok(name) => {
            proof {
                encode_utf8_decode_utf8(name@);
                encode_utf8_decode_utf8(text@);
            }
            Ok(name)
        },
        Err(reason) => Err(Error { kind: ErrorKind::InvalidMethod, message: reason }),
    }
}

/// The empty text is no method token.
pub proof fn law_empty_is_no_token()
    ensures
        !is_method_token(Seq::<char>::empty()),
{
}

/// Text that holds a character outside the token set anywhere is no method
/// token.
pub proof fn law_foreign_character_is_refused(text: Seq<char>, at: int)
    requires
        0 <= at < text.len(),
        !is_tchar(text[at]),
    ensures
        !is_method_token(text),
{
}

/// The blank characters of ASCII: space, tab, line feed, vertical tab, form
/// feed and carriage return.
pub open spec fn is_blank(c: char) -> bool {
    c == ' ' || ('\t' <= c <= '\r')
}

/// Text that holds a blank anywhere is no method token.
pub proof fn law_blank_is_refused(text: Seq<char>, at: int)
    requires
        0 <= at < text.len(),
        is_blank(text[at]),
    ensures
        !is_method_token(text),
{
}

/// Text is a method token exactly when its UTF-8 encoding is one: a token
/// character is a single byte, and no byte of a longer encoding is the code of
/// a token character.
pub proof fn lemma_token_encoding(text: Seq<char>)
    ensures
        is_token_bytes(encode_utf8(text)) <==> is_method_token(text),
{
    lemma_tchars_encoding(text);
}

/// The unbounded part of [`lemma_token_encoding`]: emptiness and the token
/// characters correspond between text and encoding.
proof fn lemma_tchars_encoding(text: Seq<char>)
    ensures
        encode_utf8(text).len() == 0 <==> text.len() == 0,
        (forall|i: int|
            0 <= i < encode_utf8(text).len() ==> is_tchar(
                #[trigger] encode_utf8(text)[i] as char,
            )) <==> (forall|i: int| 0 <= i < text.len() ==> is_tchar(#[trigger] text[i])),
    decreases text.len(),
{
    if text.len() > 0 {
        let first = text[0];
        let scalar = first as u32;
        let rest = text.drop_first();
        let head = encode_scalar(scalar);
        let tail = encode_utf8(rest);
        let bytes = encode_utf8(text);
        char_is_scalar(first);
        lemma_tchars_encoding(rest);
        lemma_first_byte(scalar);
        assert(bytes == head + tail);
        assert(bytes[0] == head[0]);
        if forall|i: int| 0 <= i < text.len() ==> is_tchar(#[trigger] text[i]) {
            assert(is_tchar(text[0]));
            assert(head.len() == 1);
            assert forall|i: int| 0 <= i < bytes.len() implies is_tchar(
                #[trigger] bytes[i] as char,
            ) by {
                if i > 0 {
                    assert(bytes[i] == tail[i - 1]);
                    assert forall|j: int| 0 <= j < rest.len() implies is_tchar(
                        #[trigger] rest[j],
                    ) by {
                        assert(rest[j] == text[j + 1]);
                    }
                }
            }
        }
        if forall|i: int| 0 <= i < bytes.len() ==> is_tchar(#[trigger] bytes[i] as char) {
            assert(is_tchar(bytes[0] as char));
            assert(scalar < 0x80);
            assert(bytes[0] as char == first) by {
                char_u32_cast(first, scalar);
            }
            assert forall|j: int| 0 <= j < tail.len() implies is_tchar(
                #[trigger] tail[j] as char,
            ) by {
                assert(tail[j] == bytes[j + 1]);
            }
            assert forall|i: int| 0 <= i < text.len() implies is_tchar(#[trigger] text[i]) by {
                if i > 0 {
                    assert(text[i] == rest[i - 1]);
                }
            }
        }
    }
}

/// The first byte of a scalar's encoding is the scalar itself where the
/// scalar is below 128, and is at least 192 otherwise.
proof fn lemma_first_byte(scalar: u32)
    requires
        is_scalar(scalar),
    ensures
        encode_scalar(scalar).len() >= 1,
        scalar < 0x80 ==> encode_scalar(scalar).len() == 1 && encode_scalar(scalar)[0] == scalar,
        scalar >= 0x80 ==> encode_scalar(scalar)[0] >= 0xC0,
{
    assert(scalar < 0x80 ==> (scalar & 0x7F) as u8 == scalar) by (bit_vector);
    assert((0xC0u8 | ((scalar >> 6) & 0x1F) as u8) >= 0xC0) by (bit_vector);
    assert((0xE0u8 | ((scalar >> 12) & 0x0F) as u8) >= 0xC0) by (bit_vector);
    assert((0xF0u8 | ((scalar >> 18) & 0x7) as u8) >= 0xC0) by (bit_vector);
}

} // verus!
