use vstd::prelude::*;

verus! {

/// The failure modes of the signing and verification core.
///
/// A verification that merely finds the signature cryptographically wrong is
/// not an error: it is a normal `false` outcome. The variants here are the
/// fatal conditions: key material of the wrong shape, signature text that
/// cannot be decoded (or decodes to the wrong length), and an algorithm or
/// format name that is not recognised. Reading the key or message bytes is
/// done by the caller, so I/O failures never reach this type.
#[derive(Debug, Clone, Copy, PartialEq, Eq, Structural)]
pub enum Error {
    /// Key bytes have the wrong length (or shape) for the selected algorithm.
    KeyFormat,
    /// Candidate signature text fails to decode, or decodes to a length the
    /// selected algorithm does not accept.
    SignatureFormat,
    /// An algorithm or encoding name that is not one of the known tags.
    UnknownFormat,
}

impl Error {
    /// A human-readable description of the error.
    pub fn message(&self) -> (r: &'static str)
        ensures
            self is KeyFormat ==> r@ == "invalid key length for the selected format"@,
            self is SignatureFormat ==> r@ == "invalid signature"@,
            self is UnknownFormat ==> r@ == "Unsupported format"@,
    {
        match self {
            Error::KeyFormat => "invalid key length for the selected format",
            Error::SignatureFormat => "invalid signature",
            Error::UnknownFormat => "Unsupported format",
        }
    }
}

} // verus!
