//! Text carried as standard base64 (with padding), the way challenges are
//! exchanged as strings.

use super::error::ChallengeError;
use base64::Engine;
use vstd::prelude::*;
use vstd::string::*;
use vstd::utf8::*;

verus! {

/// The character of the standard base64 alphabet for the value `v`, from 0 to 63.
pub open spec fn base64_digit(v: int) -> char {
    if v < 26 {
        ('A' as int + v) as char
    } else if v < 52 {
        ('a' as int + (v - 26)) as char
    } else if v < 62 {
        ('0' as int + (v - 52)) as char
    } else if v == 62 {
        '+'
    } else {
        '/'
    }
}

/// The standard base64 encoding of `bytes`, padded with `=`: every three
/// bytes become four characters of six bits each, high bits first; one or
/// two bytes left at the end become two or three characters, the last bits
/// filled with zeros, and one or two `=`.
pub open spec fn base64_encoding(bytes: Seq<u8>) -> Seq<char>
    decreases bytes.len(),
{
    if bytes.len() == 0 {
        Seq::empty()
    } else if bytes.len() == 1 {
        let a = bytes[0] as int;
        seq![base64_digit(a / 4), base64_digit((a % 4) * 16), '=', '=']
    } else if bytes.len() == 2 {
        let a = bytes[0] as int;
        let b = bytes[1] as int;
        seq![base64_digit(a / 4), base64_digit((a % 4) * 16 + b / 16), base64_digit((b % 16) * 4), '=']
    } else {
        let a = bytes[0] as int;
        let b = bytes[1] as int;
        let c = bytes[2] as int;
        seq![
            base64_digit(a / 4),
            base64_digit((a % 4) * 16 + b / 16),
            base64_digit((b % 16) * 4 + c / 64),
            base64_digit(c % 64),
        ] + base64_encoding(bytes.skip(3))
    }
}

/// What `base64::engine::general_purpose::STANDARD.decode` makes of the
/// bytes of `text`: the decoded bytes, or `None` when it refuses the text.
pub uninterp spec fn base64_decoding(text: Seq<char>) -> Option<Seq<u8>>;

/// The length of the padded encoding of `n` bytes.
pub open spec fn base64_len(n: nat) -> nat {
    4 * ((n + 2) / 3) as nat
}

/// `STANDARD.encode` of base64 0.22: the padded standard encoding
/// ([`base64_encoding`]), which `decode` turns back into the same bytes.
/// It panics when the length of the encoding overflows a `usize`, which
/// `requires` rules out.
#[verifier::external_body]
fn encode_bytes(bytes: &[u8]) -> (r: String)
    requires
        base64_len(bytes@.len()) <= usize::MAX,
    ensures
        r@ == base64_encoding(bytes@),
        base64_decoding(r@) == Some(bytes@),
{
    base64::engine::general_purpose::STANDARD.encode(bytes)
}

/// `STANDARD.decode` of base64 0.22 on the bytes of `text`, its error as
/// its message. What the message says is not stated.
#[verifier::external_body]
fn decode_bytes(text: &str) -> (r: Result<Vec<u8>, String>)
    ensures
        r is Ok <==> base64_decoding(text@) is Some,
        r matches Ok(b) ==> base64_decoding(text@) == Some(b@),
{
    base64::engine::general_purpose::STANDARD.decode(text).map_err(|e| e.to_string())
}

/// `String::from_utf8`: the text the bytes encode when they are valid
/// UTF-8, else an error, given as its message, whose wording is not stated.
#[verifier::external_body]
fn text_from_utf8(bytes: Vec<u8>) -> (r: Result<String, String>)
    ensures
        r is Ok <==> valid_utf8(bytes@),
        r matches Ok(s) ==> s@ == decode_utf8(bytes@),
{
    String::from_utf8(bytes).map_err(|e| e.to_string())
}

/// The text carried by base64 `data`: its decoded bytes read as UTF-8;
/// `None` when the data is no base64 or its bytes no UTF-8.
pub open spec fn spec_decode_text(data: Seq<char>) -> Option<Seq<char>> {
    match base64_decoding(data) {
        Some(b) => if valid_utf8(b) { Some(decode_utf8(b)) } else { None },
        None => None,
    }
}

/// Base64 of the UTF-8 bytes of `text`; decoding it gives `text` back.
pub fn encode_text(text: &str) -> (r: String)
    requires
        base64_len(text.spec_bytes().len()) <= usize::MAX,
    ensures
        r@ == base64_encoding(encode_utf8(text@)),
        spec_decode_text(r@) == Some(text@),
{
    let bytes = text.as_bytes();
    let r = encode_bytes(bytes);
    proof {
        encode_utf8_valid_utf8(text@);
        encode_utf8_decode_utf8(text@);
    }
    r
}

/// The text carried by base64 `data`; an error for data that is no base64
/// or whose bytes are no UTF-8.
pub fn decode_text(data: &str) -> (r: Result<String, ChallengeError>)
    ensures
        match spec_decode_text(data@) {
            Some(t) => r matches Ok(s) && s@ == t,
            None => r matches Err(ChallengeError::Base64Decode(_)),
        },
{
    match decode_bytes(data) {
        Ok(bytes) => match text_from_utf8(bytes) {
            Ok(s) => Ok(s),
            Err(m) => Err(ChallengeError::Base64Decode(m)),
        },
        Err(m) => Err(ChallengeError::Base64Decode(m)),
    }
}

/// The padded base64 of `bytes`; decoding it gives the bytes back.
pub fn encode_base64(bytes: &[u8]) -> (r: String)
    requires
        base64_len(bytes@.len()) <= usize::MAX,
    ensures
        r@ == base64_encoding(bytes@),
        base64_decoding(r@) == Some(bytes@),
{
    encode_bytes(bytes)
}

/// The bytes base64 `data` carries; an error for data that is no base64.
pub fn decode_base64(data: &str) -> (r: Result<Vec<u8>, ChallengeError>)
    ensures
        match base64_decoding(data@) {
            Some(b) => r matches Ok(v) && v@ == b,
            None => r matches Err(ChallengeError::Base64Decode(_)),
        },
{
    match decode_bytes(data) {
        Ok(bytes) => Ok(bytes),
        Err(m) => Err(ChallengeError::Base64Decode(m)),
    }
}

} // verus!
