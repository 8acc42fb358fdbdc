use vstd::prelude::*;

use crate::errors::Error;
use crate::strutil::{ascii_eq_ignore_case, eq_ignore_ascii_case};

verus! {

/// The two interchangeable signing algorithms: a symmetric keyed hash and an
/// asymmetric digital signature.
#[derive(Debug, Clone, Copy, PartialEq, Eq, Structural)]
pub enum TextSignFormat {
    Blake3,
    Ed25519,
}

impl TextSignFormat {
    /// The canonical lower-case name of the algorithm tag.
    pub open spec fn spec_name(&self) -> Seq<char> {
        match self {
            TextSignFormat::Blake3 => "blake3"@,
            TextSignFormat::Ed25519 => "ed25519"@,
        }
    }

    /// Renders the tag under its canonical name.
    pub fn name(&self) -> (r: String)
        ensures
            r@ == self.spec_name(),
    {
        match self {
            TextSignFormat::Blake3 => "blake3".to_owned(),
            TextSignFormat::Ed25519 => "ed25519".to_owned(),
        }
    }
}

/// Parses an algorithm tag, accepting its name in any ASCII letter case.
pub fn parse_format(format: &str) -> (r: Result<TextSignFormat, Error>)
    ensures
        r == Ok::<TextSignFormat, Error>(TextSignFormat::Blake3) <==> ascii_eq_ignore_case(
            format@,
            "blake3"@,
        ),
        r == Ok::<TextSignFormat, Error>(TextSignFormat::Ed25519) <==> ascii_eq_ignore_case(
            format@,
            "ed25519"@,
        ),
        r is Err <==> !ascii_eq_ignore_case(format@, "blake3"@) && !ascii_eq_ignore_case(
            format@,
            "ed25519"@,
        ),
        r is Err ==> r == Err::<TextSignFormat, Error>(Error::UnknownFormat),
{
    proof {
        reveal_strlit("blake3");
        reveal_strlit("ed25519");
    }
    if eq_ignore_ascii_case(format, "blake3") {
        Ok(TextSignFormat::Blake3)
    } else if eq_ignore_ascii_case(format, "ed25519") {
        Ok(TextSignFormat::Ed25519)
    } else {
        Err(Error::UnknownFormat)
    }
}

/// Selects the signing operation: produce a signature, or check one.
#[derive(Debug)]
pub enum TextSubcommand {
    Sign(TextSignOpts),
    Verify(TextVerifyOpts),
}

/// Parameters of a signing run: where the message and the key come from, and
/// which algorithm signs.
#[derive(Debug)]
pub struct TextSignOpts {
    pub input: String,
    pub key: String,
    pub format: TextSignFormat,
}

/// Parameters of a verification run: the sources of message and key, the
/// algorithm, and the candidate signature text.
#[derive(Debug)]
pub struct TextVerifyOpts {
    pub input: String,
    pub key: String,
    pub format: TextSignFormat,
    pub sig: String,
}

} // verus!
