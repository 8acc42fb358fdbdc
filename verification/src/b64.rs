use vstd::prelude::*;

use base64::Engine;

use crate::base64_opts::Base64Format;

verus! {

/// The text that base64's standard padded engine produces for the given
/// bytes.
pub uninterp spec fn b64_std_encoding(bytes: Seq<u8>) -> Seq<char>;

/// What base64's standard padded engine yields when decoding the given
/// text; `None` where the text is rejected.
pub uninterp spec fn b64_std_decoding(text: Seq<char>) -> Option<Seq<u8>>;

/// The text that base64's URL-safe unpadded engine produces for the given
/// bytes.
pub uninterp spec fn b64_url_encoding(bytes: Seq<u8>) -> Seq<char>;

/// What base64's URL-safe unpadded engine yields when decoding the given
/// text; `None` where the text is rejected.
pub uninterp spec fn b64_url_decoding(text: Seq<char>) -> Option<Seq<u8>>;

/// The encoding that the selected format produces for the given bytes.
pub open spec fn b64_encoding(format: Base64Format, bytes: Seq<u8>) -> Seq<char> {
    match format {
        Base64Format::Standard => b64_std_encoding(bytes),
        Base64Format::UrlSafe => b64_url_encoding(bytes),
    }
}

/// What decoding the given text under the selected format yields.
pub open spec fn b64_decoding(format: Base64Format, text: Seq<char>) -> Option<Seq<u8>> {
    match format {
        Base64Format::Standard => b64_std_decoding(text),
        Base64Format::UrlSafe => b64_url_decoding(text),
    }
}

/// Relies on base64's `Engine::encode` with the `STANDARD` engine: the text
/// depends on the input bytes alone, encoding never fails, and decoding the
/// text with the same engine gives the input bytes back.
#[verifier::external_body]
fn std_encode(data: &[u8]) -> (r: String)
    ensures
        r@ == b64_std_encoding(data@),
        b64_std_decoding(r@) == Some(data@),
{
    base64::engine::general_purpose::STANDARD.encode(data)
}

/// Relies on base64's `Engine::decode` with the `STANDARD` engine: the
/// outcome depends on the input text alone.
#[verifier::external_body]
fn std_decode(text: &str) -> (r: Option<Vec<u8>>)
    ensures
        r matches Some(v) ==> b64_std_decoding(text@) == Some(v@),
        r is None ==> b64_std_decoding(text@) is None,
{
    base64::engine::general_purpose::STANDARD.decode(text).ok()
}

/// Relies on base64's `Engine::encode` with the `URL_SAFE_NO_PAD` engine: the
/// text depends on the input bytes alone, encoding never fails, and decoding
/// the text with the same engine gives the input bytes back.
#[verifier::external_body]
fn url_encode(data: &[u8]) -> (r: String)
    ensures
        r@ == b64_url_encoding(data@),
        b64_url_decoding(r@) == Some(data@),
{
    base64::engine::general_purpose::URL_SAFE_NO_PAD.encode(data)
}

/// Relies on base64's `Engine::decode` with the `URL_SAFE_NO_PAD` engine: the
/// outcome depends on the input text alone.
#[verifier::external_body]
fn url_decode(text: &str) -> (r: Option<Vec<u8>>)
    ensures
        r matches Some(v) ==> b64_url_decoding(text@) == Some(v@),
        r is None ==> b64_url_decoding(text@) is None,
{
    base64::engine::general_purpose::URL_SAFE_NO_PAD.decode(text).ok()
}

/// Encodes bytes as text under the selected format. Encoding never fails,
/// and the text decodes back to exactly the input bytes.
pub fn encode_b64(data: &[u8], format: Base64Format) -> (r: String)
    ensures
        r@ == b64_encoding(format, data@),
        b64_decoding(format, r@) == Some(data@),
{
    match format {
        Base64Format::Standard => std_encode(data),
        Base64Format::UrlSafe => url_encode(data),
    }
}

/// Decodes text under the selected format; `None` where the text is not a
/// well-formed encoding in that format.
pub fn decode_b64(text: &str, format: Base64Format) -> (r: Option<Vec<u8>>)
    ensures
        r matches Some(v) ==> b64_decoding(format, text@) == Some(v@),
        r is None ==> b64_decoding(format, text@) is None,
{
    match format {
        Base64Format::Standard => std_decode(text),
        Base64Format::UrlSafe => url_decode(text),
    }
}

/// Encodes a raw signature as URL-safe unpadded text for display.
pub fn encode_signature(sig: &[u8]) -> (r: String)
    ensures
        r@ == b64_url_encoding(sig@),
        b64_url_decoding(r@) == Some(sig@),
{
    url_encode(sig)
}

/// Decodes candidate signature text written in the URL-safe unpadded form.
pub fn decode_signature(text: &str) -> (r: Option<Vec<u8>>)
    ensures
        r matches Some(v) ==> b64_url_decoding(text@) == Some(v@),
        r is None ==> b64_url_decoding(text@) is None,
{
    url_decode(text)
}

} // verus!
