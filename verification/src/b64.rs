use vstd::prelude::*;

use crate::errors::TextError;
use base64::Engine;
use vstd::utf8::is_ascii_chars;

verus! {

/// The two base64 alphabets the encoder supports.
#[derive(Clone, Copy, Debug, PartialEq, Eq, Structural)]
pub enum Base64Format {
    Standard,
    Urlsafe,
}

/// The bytes of an ASCII string, character by character.
pub open spec fn ascii_bytes_of(s: Seq<char>) -> Seq<u8> {
    s.map_values(|c: char| c as u8)
}

/// The base64 encoding of `data`, over the URL-safe alphabet when `url` is
/// set and the standard alphabet otherwise, padded with `=` exactly when
/// `pad` is set.
pub uninterp spec fn b64_encoding_of(url: bool, pad: bool, data: Seq<u8>) -> Seq<char>;

/// The base64 decoding of `text` under the same alphabet and padding
/// convention: `Some` exactly on canonical encodings, `None` otherwise.
pub uninterp spec fn b64_decoding_of(url: bool, pad: bool, text: Seq<u8>) -> Option<Seq<u8>>;

/// Relies on base64's `Engine::encode` with the four stock engines, which
/// produce the canonical encoding of their input, over an alphabet of
/// ASCII characters only; the crate's decoder inverts it
/// (`decode(encode(b)) == Ok(b)`).
#[verifier::external_body]
pub(crate) fn b64_encode(data: &[u8], url: bool, pad: bool) -> (r: String)
    ensures
        r@ == b64_encoding_of(url, pad, data@),
        b64_decoding_of(url, pad, ascii_bytes_of(r@)) == Some(data@),
        is_ascii_chars(r@),
{
    let engine = match (url, pad) {
        (false, true) => base64::engine::general_purpose::STANDARD,
        (false, false) => base64::engine::general_purpose::STANDARD_NO_PAD,
        (true, true) => base64::engine::general_purpose::URL_SAFE,
        (true, false) => base64::engine::general_purpose::URL_SAFE_NO_PAD,
    };
    engine.encode(data)
}

/// Relies on base64's `Engine::decode` with the four stock engines, which
/// are canonical: they reject padding that does not match the engine's
/// convention and non-zero trailing bits, so decoding succeeds exactly on
/// the encodings that `Engine::encode` produces — re-encoding the decoded
/// bytes reproduces the input.
#[verifier::external_body]
pub(crate) fn b64_decode(data: &[u8], url: bool, pad: bool) -> (r: Result<Vec<u8>, TextError>)
    ensures
        r matches Ok(d) ==> b64_decoding_of(url, pad, data@) == Some(d@),
        r matches Ok(d) ==> ascii_bytes_of(b64_encoding_of(url, pad, d@)) == data@,
        r is Err ==> b64_decoding_of(url, pad, data@) is None,
        r matches Err(e) ==> e == TextError::InvalidEncoding,
{
    let engine = match (url, pad) {
        (false, true) => base64::engine::general_purpose::STANDARD,
        (false, false) => base64::engine::general_purpose::STANDARD_NO_PAD,
        (true, true) => base64::engine::general_purpose::URL_SAFE,
        (true, false) => base64::engine::general_purpose::URL_SAFE_NO_PAD,
    };
    engine.decode(data).map_err(|_| TextError::InvalidEncoding)
}

/// Whether a format selects the URL-safe alphabet.
pub open spec fn is_urlsafe(format: Base64Format) -> bool {
    format == Base64Format::Urlsafe
}

/// Encode `data` as base64 text in the requested alphabet, padded unless
/// `no_padding` is set.
pub fn process_encode(data: &[u8], format: Base64Format, no_padding: bool) -> (r: String)
    ensures
        r@ == b64_encoding_of(is_urlsafe(format), !no_padding, data@),
        b64_decoding_of(is_urlsafe(format), !no_padding, ascii_bytes_of(r@)) == Some(data@),
        is_ascii_chars(r@),
{
    let url = match format {
        Base64Format::Standard => false,
        Base64Format::Urlsafe => true,
    };
    b64_encode(data, url, !no_padding)
}

/// Decode base64 text in the requested alphabet; padding must be present
/// exactly when `no_padding` is not set. Fails with `InvalidEncoding` on
/// anything that is not a canonical encoding under that convention.
pub fn process_decode(data: &[u8], format: Base64Format, no_padding: bool) -> (r: Result<
    Vec<u8>,
    TextError,
>)
    ensures
        r matches Ok(d) ==> b64_decoding_of(is_urlsafe(format), !no_padding, data@) == Some(d@),
        r matches Ok(d) ==> ascii_bytes_of(b64_encoding_of(is_urlsafe(format), !no_padding, d@))
            == data@,
        r is Err <==> b64_decoding_of(is_urlsafe(format), !no_padding, data@) is None,
        r matches Err(e) ==> e == TextError::InvalidEncoding,
{
    let url = match format {
        Base64Format::Standard => false,
        Base64Format::Urlsafe => true,
    };
    b64_decode(data, url, !no_padding)
}

} // verus!
