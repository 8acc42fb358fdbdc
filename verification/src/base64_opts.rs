use vstd::prelude::*;

use crate::errors::Error;
use crate::strutil::{ascii_eq_ignore_case, eq_ignore_ascii_case};

verus! {

/// The two binary-to-text alphabets the codec offers: the standard padded one
/// and the URL-safe unpadded one.
#[derive(Debug, Clone, Copy, PartialEq, Eq, Structural)]
pub enum Base64Format {
    Standard,
    UrlSafe,
}

impl Base64Format {
    /// The canonical lower-case name of the format.
    pub open spec fn spec_name(&self) -> Seq<char> {
        match self {
            Base64Format::Standard => "standard"@,
            Base64Format::UrlSafe => "urlsafe"@,
        }
    }

    /// Renders the format under its canonical name.
    pub fn name(&self) -> (r: String)
        ensures
            r@ == self.spec_name(),
    {
        match self {
            Base64Format::Standard => "standard".to_owned(),
            Base64Format::UrlSafe => "urlsafe".to_owned(),
        }
    }
}

/// Parses a codec format name, accepting it in any ASCII letter case.
pub fn parse_base64_format(format: &str) -> (r: Result<Base64Format, Error>)
    ensures
        r == Ok::<Base64Format, Error>(Base64Format::Standard) <==> ascii_eq_ignore_case(
            format@,
            "standard"@,
        ),
        r == Ok::<Base64Format, Error>(Base64Format::UrlSafe) <==> ascii_eq_ignore_case(
            format@,
            "urlsafe"@,
        ),
        r is Err <==> !ascii_eq_ignore_case(format@, "standard"@) && !ascii_eq_ignore_case(
            format@,
            "urlsafe"@,
        ),
        r is Err ==> r == Err::<Base64Format, Error>(Error::UnknownFormat),
{
    proof {
        reveal_strlit("standard");
        reveal_strlit("urlsafe");
    }
    if eq_ignore_ascii_case(format, "standard") {
        Ok(Base64Format::Standard)
    } else if eq_ignore_ascii_case(format, "urlsafe") {
        Ok(Base64Format::UrlSafe)
    } else {
        Err(Error::UnknownFormat)
    }
}

/// Selects the codec direction: bytes to text, or text back to bytes.
#[derive(Debug)]
pub enum Base64Subcommand {
    Encode(Base64EncodeOpts),
    Decode(Base64DecodeOpts),
}

/// Parameters of an encoding run: where the bytes come from and which
/// alphabet encodes them.
#[derive(Debug)]
pub struct Base64EncodeOpts {
    pub input: String,
    pub format: Base64Format,
}

/// Parameters of a decoding run: where the text comes from and which
/// alphabet it is written in.
#[derive(Debug)]
pub struct Base64DecodeOpts {
    pub input: String,
    pub format: Base64Format,
}

} // verus!
