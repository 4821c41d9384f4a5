//! The wire codec: binary data to and from base64 text.
use crate::cli::b64::Base64Format;
use crate::error::TextError;
use base64::prelude::{
    Engine, BASE64_STANDARD, BASE64_STANDARD_NO_PAD, BASE64_URL_SAFE, BASE64_URL_SAFE_NO_PAD,
};
use vstd::prelude::*;
use vstd::utf8::encode_utf8;

verus! {

/// The error of the `base64` crate's decoders.
#[verifier::external_type_specification]
#[verifier::external_body]
pub struct ExDecodeError(base64::DecodeError);

/// The text that `Engine::encode` of the `base64` crate gives `bytes`, on
/// the general-purpose engine with the standard or the URL-safe alphabet,
/// with or without padding.
pub uninterp spec fn base64_encoding(url_safe: bool, padded: bool, bytes: Seq<u8>) -> Seq<char>;

/// What `Engine::decode` of the `base64` crate makes of the bytes of a text
/// on the same four engines: the decoded bytes, or `None` where it reports
/// a `DecodeError`.
pub uninterp spec fn base64_decoding(url_safe: bool, padded: bool, text: Seq<u8>) -> Option<
    Seq<u8>,
>;

/// The number of characters in the encoding of `n` bytes: four for every
/// three bytes, and for a last group of one or two bytes either four with
/// padding, or two or three without.
pub open spec fn encoded_len(n: nat, padded: bool) -> nat {
    if padded {
        (n + 2) / 3 * 4
    } else {
        (4 * n + 2) / 3
    }
}

/// Whether `c` is a symbol of the alphabet: a letter, a digit, or one of
/// `+` and `/`, for which the URL-safe alphabet has `-` and `_`.
pub open spec fn in_alphabet(c: char, url_safe: bool) -> bool {
    ||| 'A' <= c <= 'Z'
    ||| 'a' <= c <= 'z'
    ||| '0' <= c <= '9'
    ||| if url_safe {
        c == '-' || c == '_'
    } else {
        c == '+' || c == '/'
    }
}

/// Whether `text` is written in the symbols of the alphabet, and in `=`
/// where there is padding.
pub open spec fn is_base64_text(text: Seq<char>, url_safe: bool, padded: bool) -> bool {
    forall|i: int|
        0 <= i < text.len() ==> in_alphabet(#[trigger] text[i], url_safe) || (padded && text[i]
            == '=')
}

/// `BASE64_STANDARD.encode`. The text is the named encoding, is written in
/// the engine's alphabet, has the length that the crate's `encoded_len`
/// computes, and decodes back to `bytes` on the same engine. The call allocates the text, which panics where its
/// length is above `isize::MAX`.
#[verifier::external_body]
fn encode_standard(bytes: &[u8]) -> (text: String)
    requires
        encoded_len(bytes@.len(), true) <= isize::MAX,
    ensures
        text@ == base64_encoding(false, true, bytes@),
        is_base64_text(text@, false, true),
        text@.len() == encoded_len(bytes@.len(), true),
        base64_decoding(false, true, encode_utf8(text@)) == Some(bytes@),
{
    BASE64_STANDARD.encode(bytes)
}

/// `BASE64_STANDARD_NO_PAD.encode`, stated as for the standard engine.
#[verifier::external_body]
fn encode_standard_no_pad(bytes: &[u8]) -> (text: String)
    requires
        encoded_len(bytes@.len(), false) <= isize::MAX,
    ensures
        text@ == base64_encoding(false, false, bytes@),
        is_base64_text(text@, false, false),
        text@.len() == encoded_len(bytes@.len(), false),
        base64_decoding(false, false, encode_utf8(text@)) == Some(bytes@),
{
    BASE64_STANDARD_NO_PAD.encode(bytes)
}

/// `BASE64_URL_SAFE.encode`, stated as for the standard engine.
#[verifier::external_body]
fn encode_url_safe(bytes: &[u8]) -> (text: String)
    requires
        encoded_len(bytes@.len(), true) <= isize::MAX,
    ensures
        text@ == base64_encoding(true, true, bytes@),
        is_base64_text(text@, true, true),
        text@.len() == encoded_len(bytes@.len(), true),
        base64_decoding(true, true, encode_utf8(text@)) == Some(bytes@),
{
    BASE64_URL_SAFE.encode(bytes)
}

/// `BASE64_URL_SAFE_NO_PAD.encode`, stated as for the standard engine.
#[verifier::external_body]
fn encode_url_safe_no_pad(bytes: &[u8]) -> (text: String)
    requires
        encoded_len(bytes@.len(), false) <= isize::MAX,
    ensures
        text@ == base64_encoding(true, false, bytes@),
        is_base64_text(text@, true, false),
        text@.len() == encoded_len(bytes@.len(), false),
        base64_decoding(true, false, encode_utf8(text@)) == Some(bytes@),
{
    BASE64_URL_SAFE_NO_PAD.encode(bytes)
}

/// `BASE64_STANDARD.decode`: the named decoding of the text's bytes, an
/// error standing for `None`.
#[verifier::external_body]
fn decode_standard(text: &[u8]) -> (r: Result<Vec<u8>, base64::DecodeError>)
    ensures
        match r {
            Ok(bytes) => base64_decoding(false, true, text@) == Some(bytes@),
            Err(_) => base64_decoding(false, true, text@) is None,
        },
{
    BASE64_STANDARD.decode(text)
}

/// `BASE64_STANDARD_NO_PAD.decode`, stated as for the standard engine.
#[verifier::external_body]
fn decode_standard_no_pad(text: &[u8]) -> (r: Result<Vec<u8>, base64::DecodeError>)
    ensures
        match r {
            Ok(bytes) => base64_decoding(false, false, text@) == Some(bytes@),
            Err(_) => base64_decoding(false, false, text@) is None,
        },
{
    BASE64_STANDARD_NO_PAD.decode(text)
}

/// `BASE64_URL_SAFE.decode`, stated as for the standard engine.
#[verifier::external_body]
fn decode_url_safe(text: &[u8]) -> (r: Result<Vec<u8>, base64::DecodeError>)
    ensures
        match r {
            Ok(bytes) => base64_decoding(true, true, text@) == Some(bytes@),
            Err(_) => base64_decoding(true, true, text@) is None,
        },
{
    BASE64_URL_SAFE.decode(text)
}

/// `BASE64_URL_SAFE_NO_PAD.decode`, stated as for the standard engine.
#[verifier::external_body]
fn decode_url_safe_no_pad(text: &[u8]) -> (r: Result<Vec<u8>, base64::DecodeError>)
    ensures
        match r {
            Ok(bytes) => base64_decoding(true, false, text@) == Some(bytes@),
            Err(_) => base64_decoding(true, false, text@) is None,
        },
{
    BASE64_URL_SAFE_NO_PAD.decode(text)
}

/// Whether `c` has the Unicode property `White_Space`.
pub open spec fn is_whitespace(c: char) -> bool {
    ||| '\u{9}' <= c <= '\u{d}'
    ||| c == ' '
    ||| c == '\u{85}'
    ||| c == '\u{a0}'
    ||| c == '\u{1680}'
    ||| '\u{2000}' <= c <= '\u{200a}'
    ||| c == '\u{2028}'
    ||| c == '\u{2029}'
    ||| c == '\u{202f}'
    ||| c == '\u{205f}'
    ||| c == '\u{3000}'
}

/// `s` without its leading whitespace.
pub open spec fn trim_start(s: Seq<char>) -> Seq<char>
    decreases s.len(),
{
    if s.len() > 0 && is_whitespace(s.first()) {
        trim_start(s.drop_first())
    } else {
        s
    }
}

/// `s` without its trailing whitespace.
pub open spec fn trim_end(s: Seq<char>) -> Seq<char>
    decreases s.len(),
{
    if s.len() > 0 && is_whitespace(s.last()) {
        trim_end(s.drop_last())
    } else {
        s
    }
}

/// `s` without its leading and trailing whitespace.
pub open spec fn trimmed(s: Seq<char>) -> Seq<char> {
    trim_end(trim_start(s))
}

/// `str::trim`: the slice of `text` between its leading and its trailing
/// whitespace, whitespace being the characters of the Unicode property
/// `White_Space`.
#[verifier::external_body]
fn trim(text: &str) -> (inner: &str)
    ensures
        inner@ == trimmed(text@),
{
    text.trim()
}

/// Whether the format selects the URL-safe alphabet.
pub open spec fn is_url_safe(format: Base64Format) -> bool {
    format == Base64Format::UrlSafe
}

/// Encodes `input` in the alphabet of `format`, without padding where
/// `no_padding` is set.
pub fn process_encode(input: &[u8], format: Base64Format, no_padding: bool) -> (encoded: String)
    requires
        encoded_len(input@.len(), !no_padding) <= isize::MAX,
    ensures
        encoded@ == base64_encoding(is_url_safe(format), !no_padding, input@),
        is_base64_text(encoded@, is_url_safe(format), !no_padding),
        encoded@.len() == encoded_len(input@.len(), !no_padding),
        base64_decoding(is_url_safe(format), !no_padding, encode_utf8(encoded@)) == Some(input@),
{
    match format {
        Base64Format::Standard => {
            if no_padding {
                encode_standard_no_pad(input)
            } else {
                encode_standard(input)
            }
        },
        Base64Format::UrlSafe => {
            if no_padding {
                encode_url_safe_no_pad(input)
            } else {
                encode_url_safe(input)
            }
        },
    }
}

/// What decoding `text` gives once the whitespace around it is dropped:
/// the bytes, or `EncodingError` where the rest is not a canonical encoding
/// in the alphabet and padding chosen.
pub open spec fn decode_outcome(text: Seq<char>, format: Base64Format, no_padding: bool) -> Result<
    Seq<u8>,
    TextError,
> {
    match base64_decoding(is_url_safe(format), !no_padding, encode_utf8(trimmed(text))) {
        Some(bytes) => Ok(bytes),
        None => Err(TextError::EncodingError),
    }
}

/// Decodes `input`, ignoring whitespace before and after it, in the
/// alphabet of `format`; with `no_padding` set, padding is refused, and
/// without it, required.
pub fn process_decode(input: &str, format: Base64Format, no_padding: bool) -> (decoded: Result<
    Vec<u8>,
    TextError,
>)
    ensures
        match decoded {
            Ok(bytes) => decode_outcome(input@, format, no_padding) == Ok::<Seq<u8>, TextError>(
                bytes@,
            ),
            Err(e) => decode_outcome(input@, format, no_padding) == Err::<Seq<u8>, TextError>(e),
        },
{
    let text = trim(input).as_bytes();
    let decoded = match format {
        Base64Format::Standard => {
            if no_padding {
                decode_standard_no_pad(text)
            } else {
                decode_standard(text)
            }
        },
        Base64Format::UrlSafe => {
            if no_padding {
                decode_url_safe_no_pad(text)
            } else {
                decode_url_safe(text)
            }
        },
    };
    match decoded {
        Ok(bytes) => Ok(bytes),
        Err(_) => Err(TextError::EncodingError),
    }
}

/// The transport text of `bytes`: URL-safe alphabet, no padding.
pub open spec fn wire_text(bytes: Seq<u8>) -> Seq<char> {
    base64_encoding(true, false, bytes)
}

/// The bytes that the transport text with the given UTF-8 bytes stands for,
/// or `None` where it is not a canonical encoding.
pub open spec fn wire_bytes(text: Seq<u8>) -> Option<Seq<u8>> {
    base64_decoding(true, false, text)
}

/// Whether `text` is written in letters, digits, `-` and `_` alone.
pub open spec fn is_wire_text(text: Seq<char>) -> bool {
    is_base64_text(text, true, false)
}

/// The number of characters in the transport text of `n` bytes.
pub open spec fn wire_len(n: nat) -> nat {
    encoded_len(n, false)
}

/// Encodes a signature or an envelope for transport as text.
pub fn wire_encode(bytes: &[u8]) -> (text: String)
    requires
        wire_len(bytes@.len()) <= isize::MAX,
    ensures
        text@ == wire_text(bytes@),
        is_wire_text(text@),
        text@.len() == wire_len(bytes@.len()),
        wire_bytes(encode_utf8(text@)) == Some(bytes@),
{
    encode_url_safe_no_pad(bytes)
}

/// Decodes transport text, given as its UTF-8 bytes.
pub fn wire_decode(text: &[u8]) -> (bytes: Result<Vec<u8>, TextError>)
    ensures
        match bytes {
            Ok(decoded) => wire_bytes(text@) == Some(decoded@),
            Err(e) => wire_bytes(text@) is None && e == TextError::EncodingError,
        },
{
    match decode_url_safe_no_pad(text) {
        Ok(decoded) => Ok(decoded),
        Err(_) => Err(TextError::EncodingError),
    }
}

} // verus!
