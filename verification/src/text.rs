use vstd::prelude::*;
use vstd::slice::slice_to_vec;

use ed25519_dalek::Signer;
use ed25519_dalek::Verifier;

use crate::b64::{b64_url_decoding, b64_url_encoding, decode_signature, encode_signature};
use crate::errors::Error;
use crate::text_opts::TextSignFormat;

verus! {

/// The 32-byte keyed digest that blake3 computes for the given 32-byte key
/// and message.
pub uninterp spec fn blake3_keyed_digest(key: Seq<u8>, data: Seq<u8>) -> Seq<u8>;

/// The 64-byte signature that Ed25519 computes for the given 32-byte seed
/// and message.
pub uninterp spec fn ed25519_signature_bytes(seed: Seq<u8>, data: Seq<u8>) -> Seq<u8>;

/// The 32-byte encoded verifying key that belongs to the given 32-byte seed.
pub uninterp spec fn ed25519_public_key(seed: Seq<u8>) -> Seq<u8>;

/// Whether 32 bytes are a well-formed encoded Ed25519 verifying key.
pub uninterp spec fn ed25519_key_valid(pk: Seq<u8>) -> bool;

/// Whether Ed25519 verification accepts the signature for the given
/// verifying key and message.
pub uninterp spec fn ed25519_accepts(pk: Seq<u8>, data: Seq<u8>, sig: Seq<u8>) -> bool;

/// Relies on `blake3::keyed_hash`: a deterministic 32-byte keyed digest of
/// the message under the 32-byte key.
#[verifier::external_body]
fn blake3_keyed(key: &Vec<u8>, data: &[u8]) -> (r: Vec<u8>)
    requires
        key@.len() == 32,
    ensures
        r@ == blake3_keyed_digest(key@, data@),
        r@.len() == 32,
{
    let arr: &[u8; 32] = key.as_slice().try_into().unwrap();
    blake3::keyed_hash(arr, data).as_bytes().to_vec()
}

/// Relies on `ed25519_dalek::SigningKey::from_bytes` and `Signer::sign`:
/// signing is deterministic in the seed and the message, always yields 64
/// bytes, and the result verifies under the seed's own verifying key.
#[verifier::external_body]
fn ed25519_sign_raw(seed: &Vec<u8>, data: &[u8]) -> (r: Vec<u8>)
    requires
        seed@.len() == 32,
    ensures
        r@ == ed25519_signature_bytes(seed@, data@),
        r@.len() == 64,
        ed25519_accepts(ed25519_public_key(seed@), data@, r@),
{
    let arr: &[u8; 32] = seed.as_slice().try_into().unwrap();
    let key = ed25519_dalek::SigningKey::from_bytes(arr);
    key.sign(data).to_bytes().to_vec()
}

/// Relies on `ed25519_dalek::SigningKey::verifying_key`: the verifying key
/// is derived from the seed alone, is 32 bytes, and its encoding is a
/// well-formed verifying key.
#[verifier::external_body]
fn ed25519_derive_public(seed: &Vec<u8>) -> (r: Vec<u8>)
    requires
        seed@.len() == 32,
    ensures
        r@ == ed25519_public_key(seed@),
        r@.len() == 32,
        ed25519_key_valid(r@),
{
    let arr: &[u8; 32] = seed.as_slice().try_into().unwrap();
    let key = ed25519_dalek::SigningKey::from_bytes(arr);
    key.verifying_key().to_bytes().to_vec()
}

/// Relies on `ed25519_dalek::VerifyingKey::from_bytes`: whether 32 bytes
/// decode to a verifying key depends on the bytes alone.
#[verifier::external_body]
fn ed25519_check_key(pk: &Vec<u8>) -> (r: bool)
    requires
        pk@.len() == 32,
    ensures
        r == ed25519_key_valid(pk@),
{
    let arr: &[u8; 32] = pk.as_slice().try_into().unwrap();
    ed25519_dalek::VerifyingKey::from_bytes(arr).is_ok()
}

/// Relies on `ed25519_dalek::VerifyingKey::from_bytes`,
/// `ed25519_dalek::Signature::from_bytes` (infallible on 64 bytes) and
/// `Verifier::verify`: the outcome depends only on key, message and
/// signature bytes.
#[verifier::external_body]
fn ed25519_verify_raw(pk: &Vec<u8>, data: &[u8], sig: &[u8]) -> (r: bool)
    requires
        pk@.len() == 32,
        ed25519_key_valid(pk@),
        sig@.len() == 64,
    ensures
        r == ed25519_accepts(pk@, data@, sig@),
{
    let key_arr: &[u8; 32] = pk.as_slice().try_into().unwrap();
    let key = ed25519_dalek::VerifyingKey::from_bytes(key_arr).unwrap();
    let sig_arr: &[u8; 64] = sig.try_into().unwrap();
    let signature = ed25519_dalek::Signature::from_bytes(sig_arr);
    key.verify(data, &signature).is_ok()
}

/// Compares two byte slices for exact equality.
fn bytes_eq(a: &[u8], b: &[u8]) -> (r: bool)
    ensures
        r == (a@ == b@),
{
    if a.len() != b.len() {
        return false;
    }
    let n = a.len();
    let mut i: usize = 0;
    while i < n
        invariant
            n == a@.len(),
            n == b@.len(),
            i <= n,
            forall|j: int| 0 <= j < i ==> a@[j] == b@[j],
        decreases n - i,
    {
        if a[i] != b[i] {
            assert(a@[i as int] != b@[i as int]);
            return false;
        }
        i += 1;
    }
    proof {
        assert(a@ =~= b@);
    }
    true
}

/// Whether symmetric verification under `key` accepts `sig` for `data`: the
/// tag must be exactly the keyed digest of the message under that same key.
pub open spec fn blake3_verifies(key: Seq<u8>, data: Seq<u8>, sig: Seq<u8>) -> bool {
    sig == blake3_keyed_digest(key, data)
}

/// The symmetric algorithm: a 32-byte shared secret keying a blake3 digest.
pub struct Blake3 {
    key: Vec<u8>,
}

impl Blake3 {
    /// The shared secret held by this signer.
    pub closed spec fn key_bytes(&self) -> Seq<u8> {
        self.key@
    }

    /// The key is exactly 32 bytes.
    pub open spec fn wf(&self) -> bool {
        self.key_bytes().len() == 32
    }

    /// Wraps an exact 32-byte key.
    pub fn new(key: Vec<u8>) -> (r: Self)
        requires
            key@.len() == 32,
        ensures
            r.key_bytes() == key@,
            r.wf(),
    {
        Blake3 { key }
    }

    /// Shapes raw key bytes into a symmetric key: the first 32 bytes are the
    /// key and anything beyond is ignored; fewer than 32 bytes are a key
    /// format error.
    pub fn try_new(key: &[u8]) -> (r: Result<Self, Error>)
        ensures
            key@.len() >= 32 ==> (r matches Ok(s) && s.key_bytes() == key@.subrange(0, 32)
                && s.wf()),
            key@.len() < 32 ==> r == Err::<Blake3, Error>(Error::KeyFormat),
    {
        if key.len() < 32 {
            return Err(Error::KeyFormat);
        }
        let head: &[u8] = &key[0..32];
        Ok(Blake3::new(slice_to_vec(head)))
    }

    /// Loads a symmetric key from the bytes a key source supplied.
    pub fn load(key: &[u8]) -> (r: Result<Self, Error>)
        ensures
            key@.len() >= 32 ==> (r matches Ok(s) && s.key_bytes() == key@.subrange(0, 32)
                && s.wf()),
            key@.len() < 32 ==> r == Err::<Blake3, Error>(Error::KeyFormat),
    {
        Self::try_new(key)
    }

    /// Signs the message: its keyed digest under the shared secret is the
    /// tag.
    pub fn sign(&self, data: &[u8]) -> (r: Vec<u8>)
        requires
            self.wf(),
        ensures
            r@ == blake3_keyed_digest(self.key_bytes(), data@),
            r@.len() == 32,
    {
        blake3_keyed(&self.key, data)
    }

    /// Checks a tag against the message by recomputing the keyed digest
    /// under this signer's own key: verification is bound to the key. A
    /// mismatch is a normal `false`, never an error.
    pub fn verify(&self, data: &[u8], sig: &[u8]) -> (r: bool)
        requires
            self.wf(),
        ensures
            r == blake3_verifies(self.key_bytes(), data@, sig@),
    {
        let expected = blake3_keyed(&self.key, data);
        bytes_eq(expected.as_slice(), sig)
    }
}

/// The private half of the asymmetric algorithm: a 32-byte Ed25519 seed.
pub struct Ed25519Signer {
    key: Vec<u8>,
}

impl Ed25519Signer {
    /// The seed held by this signer.
    pub closed spec fn key_bytes(&self) -> Seq<u8> {
        self.key@
    }

    /// The seed is exactly 32 bytes.
    pub open spec fn wf(&self) -> bool {
        self.key_bytes().len() == 32
    }

    /// Wraps an exact 32-byte seed.
    pub fn new(key: Vec<u8>) -> (r: Self)
        requires
            key@.len() == 32,
        ensures
            r.key_bytes() == key@,
            r.wf(),
    {
        Ed25519Signer { key }
    }

    /// Shapes raw key bytes into a signing key: exactly 32 bytes are
    /// required; any other length is a key format error.
    pub fn try_new(key: &[u8]) -> (r: Result<Self, Error>)
        ensures
            key@.len() == 32 ==> (r matches Ok(s) && s.key_bytes() == key@ && s.wf()),
            key@.len() != 32 ==> r == Err::<Ed25519Signer, Error>(Error::KeyFormat),
    {
        if key.len() != 32 {
            return Err(Error::KeyFormat);
        }
        Ok(Ed25519Signer::new(slice_to_vec(key)))
    }

    /// Loads a signing key from the bytes a key source supplied.
    pub fn load(key: &[u8]) -> (r: Result<Self, Error>)
        ensures
            key@.len() == 32 ==> (r matches Ok(s) && s.key_bytes() == key@ && s.wf()),
            key@.len() != 32 ==> r == Err::<Ed25519Signer, Error>(Error::KeyFormat),
    {
        Self::try_new(key)
    }

    /// Signs the message under the seed. The signature is deterministic, 64
    /// bytes long, and verifies under this signer's own verifying key.
    pub fn sign(&self, data: &[u8]) -> (r: Vec<u8>)
        requires
            self.wf(),
        ensures
            r@ == ed25519_signature_bytes(self.key_bytes(), data@),
            r@.len() == 64,
            ed25519_accepts(ed25519_public_key(self.key_bytes()), data@, r@),
    {
        ed25519_sign_raw(&self.key, data)
    }

    /// The encoded verifying key that corresponds to this signing key.
    pub fn public_key(&self) -> (r: Vec<u8>)
        requires
            self.wf(),
        ensures
            r@ == ed25519_public_key(self.key_bytes()),
            r@.len() == 32,
            ed25519_key_valid(r@),
    {
        ed25519_derive_public(&self.key)
    }
}

/// The public half of the asymmetric algorithm: a 32-byte encoded Ed25519
/// verifying key.
pub struct Ed25519Verifier {
    key: Vec<u8>,
}

impl Ed25519Verifier {
    /// The encoded verifying key held by this verifier.
    pub closed spec fn key_bytes(&self) -> Seq<u8> {
        self.key@
    }

    /// The key is exactly 32 bytes and a well-formed verifying key.
    pub open spec fn wf(&self) -> bool {
        &&& self.key_bytes().len() == 32
        &&& ed25519_key_valid(self.key_bytes())
    }

    /// Wraps an exact, well-formed 32-byte verifying key.
    pub fn new(key: Vec<u8>) -> (r: Self)
        requires
            key@.len() == 32,
            ed25519_key_valid(key@),
        ensures
            r.key_bytes() == key@,
            r.wf(),
    {
        Ed25519Verifier { key }
    }

    /// Shapes raw key bytes into a verifying key: exactly 32 bytes encoding
    /// a well-formed key are required; anything else is a key format error.
    pub fn try_new(key: &[u8]) -> (r: Result<Self, Error>)
        ensures
            r matches Ok(v) ==> v.key_bytes() == key@ && v.wf(),
            r is Ok <==> key@.len() == 32 && ed25519_key_valid(key@),
            r is Err ==> r == Err::<Ed25519Verifier, Error>(Error::KeyFormat),
    {
        if key.len() != 32 {
            return Err(Error::KeyFormat);
        }
        let k = slice_to_vec(key);
        if !ed25519_check_key(&k) {
            return Err(Error::KeyFormat);
        }
        Ok(Ed25519Verifier::new(k))
    }

    /// Loads a verifying key from the bytes a key source supplied.
    pub fn load(key: &[u8]) -> (r: Result<Self, Error>)
        ensures
            r matches Ok(v) ==> v.key_bytes() == key@ && v.wf(),
            r is Ok <==> key@.len() == 32 && ed25519_key_valid(key@),
            r is Err ==> r == Err::<Ed25519Verifier, Error>(Error::KeyFormat),
    {
        Self::try_new(key)
    }

    /// Checks a signature against the message under the verifying key. A
    /// signature of any length other than 64 bytes is a signature format
    /// error, raised before cryptographic verification; a well-formed but
    /// wrong signature is a normal `Ok(false)`.
    pub fn verify(&self, data: &[u8], sig: &[u8]) -> (r: Result<bool, Error>)
        requires
            self.wf(),
        ensures
            sig@.len() == 64 ==> r == Ok::<bool, Error>(
                ed25519_accepts(self.key_bytes(), data@, sig@),
            ),
            sig@.len() != 64 ==> r == Err::<bool, Error>(Error::SignatureFormat),
    {
        if sig.len() != 64 {
            return Err(Error::SignatureFormat);
        }
        Ok(ed25519_verify_raw(&self.key, data, sig))
    }
}

/// Whether raw key bytes have the right shape to sign under the given
/// algorithm: at least 32 bytes for the symmetric key (only the first 32 are
/// used), exactly 32 for the Ed25519 seed.
pub open spec fn sign_key_ok(format: TextSignFormat, key: Seq<u8>) -> bool {
    match format {
        TextSignFormat::Blake3 => key.len() >= 32,
        TextSignFormat::Ed25519 => key.len() == 32,
    }
}

/// Whether raw key bytes have the right shape to verify under the given
/// algorithm: as for signing, except that an Ed25519 verifying key must also
/// be a well-formed curve point.
pub open spec fn verify_key_ok(format: TextSignFormat, key: Seq<u8>) -> bool {
    match format {
        TextSignFormat::Blake3 => key.len() >= 32,
        TextSignFormat::Ed25519 => key.len() == 32 && ed25519_key_valid(key),
    }
}

/// The raw signature that the given algorithm produces for the message under
/// the key shaped from the given raw key bytes.
pub open spec fn signature_of(format: TextSignFormat, key: Seq<u8>, data: Seq<u8>) -> Seq<u8> {
    match format {
        TextSignFormat::Blake3 => blake3_keyed_digest(key.subrange(0, 32), data),
        TextSignFormat::Ed25519 => ed25519_signature_bytes(key, data),
    }
}

/// Signs a message: loads the key for the selected algorithm, signs, and
/// renders the raw signature in the URL-safe unpadded text form. The text
/// decodes back to exactly the raw signature.
pub fn process_sign(data: &[u8], key: &[u8], format: TextSignFormat) -> (r: Result<
    String,
    Error,
>)
    ensures
        sign_key_ok(format, key@) ==> (r matches Ok(t) && t@ == b64_url_encoding(
            signature_of(format, key@, data@),
        ) && b64_url_decoding(t@) == Some(signature_of(format, key@, data@))),
        !sign_key_ok(format, key@) ==> r == Err::<String, Error>(Error::KeyFormat),
{
    let signed: Vec<u8> = match format {
        TextSignFormat::Blake3 => {
            let signer = match Blake3::load(key) {
                Ok(s) => s,
                Err(e) => {
                    return Err(e);
                },
            };
            signer.sign(data)
        },
        TextSignFormat::Ed25519 => {
            let signer = match Ed25519Signer::load(key) {
                Ok(s) => s,
                Err(e) => {
                    return Err(e);
                },
            };
            signer.sign(data)
        },
    };
    Ok(encode_signature(signed.as_slice()))
}

/// Checks candidate signature text against a message: decodes the text
/// (failure is a signature format error, raised before the key is even
/// looked at), loads the key for the selected algorithm, and verifies.
/// A decodable signature that is simply wrong is a normal `Ok(false)`.
pub fn process_verify(data: &[u8], sig: &str, key: &[u8], format: TextSignFormat) -> (r: Result<
    bool,
    Error,
>)
    ensures
        b64_url_decoding(sig@) is None ==> r == Err::<bool, Error>(Error::SignatureFormat),
        b64_url_decoding(sig@) matches Some(raw) ==> {
            &&& !verify_key_ok(format, key@) ==> r == Err::<bool, Error>(Error::KeyFormat)
            &&& verify_key_ok(format, key@) ==> match format {
                TextSignFormat::Blake3 => r == Ok::<bool, Error>(
                    blake3_verifies(key@.subrange(0, 32), data@, raw),
                ),
                TextSignFormat::Ed25519 => if raw.len() == 64 {
                    r == Ok::<bool, Error>(ed25519_accepts(key@, data@, raw))
                } else {
                    r == Err::<bool, Error>(Error::SignatureFormat)
                },
            }
        },
{
    let sig_raw = match decode_signature(sig) {
        Some(v) => v,
        None => {
            return Err(Error::SignatureFormat);
        },
    };
    match format {
        TextSignFormat::Blake3 => {
            let verifier = match Blake3::load(key) {
                Ok(v) => v,
                Err(e) => {
                    return Err(e);
                },
            };
            Ok(verifier.verify(data, sig_raw.as_slice()))
        },
        TextSignFormat::Ed25519 => {
            let verifier = match Ed25519Verifier::load(key) {
                Ok(v) => v,
                Err(e) => {
                    return Err(e);
                },
            };
            verifier.verify(data, sig_raw.as_slice())
        },
    }
}

/// Law: a tag computed as the keyed digest of a message under a key is
/// exactly what symmetric verification under that same key accepts.
pub proof fn lemma_blake3_sign_verify(key: Seq<u8>, data: Seq<u8>)
    ensures
        blake3_verifies(key, data, blake3_keyed_digest(key, data)),
{
}

/// Law: any change to a valid tag — a single flipped bit included — makes
/// symmetric verification reject it: the comparison is exact, so only the one
/// keyed digest of the message is ever accepted. A changed message is
/// rejected whenever its keyed digest differs from the old one, which is the
/// collision resistance assumed of the primitive, not proved here.
pub proof fn lemma_blake3_altered_tag_rejected(key: Seq<u8>, data: Seq<u8>, sig: Seq<u8>)
    requires
        sig != blake3_keyed_digest(key, data),
    ensures
        !blake3_verifies(key, data, sig),
{
}

/// Law: symmetric verification is bound to the verifier's own key. A tag
/// made under `k1` is accepted under `k2` exactly when the keyed digests of
/// the message under the two keys coincide; acceptance never ignores the
/// key.
pub proof fn lemma_blake3_key_binding(k1: Seq<u8>, k2: Seq<u8>, data: Seq<u8>)
    ensures
        blake3_verifies(k2, data, blake3_keyed_digest(k1, data)) == (blake3_keyed_digest(
            k1,
            data,
        ) == blake3_keyed_digest(k2, data)),
{
}

} // verus!
