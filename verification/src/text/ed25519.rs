use vstd::prelude::*;

use crate::errors::TextError;
use crate::text::take_bytes;

verus! {

/// The length of an Ed25519 seed and of a verifying key.
pub const KEY_LENGTH: usize = 32;

/// The length of an Ed25519 signature.
pub const SIG_LENGTH: usize = 64;

/// The 32-byte verifying key derived from a 32-byte signing seed.
pub uninterp spec fn ed25519_public_of(seed: Seq<u8>) -> Seq<u8>;

/// The 64-byte deterministic Ed25519 signature of `msg` under the signing
/// key with seed `seed`.
pub uninterp spec fn ed25519_signature_of(seed: Seq<u8>, msg: Seq<u8>) -> Seq<u8>;

/// Whether 32 bytes are the encoding of a valid curve point, i.e. a
/// well-formed verifying key.
pub uninterp spec fn ed25519_valid_public(pk: Seq<u8>) -> bool;

/// Whether Ed25519 verification of `sig` over `msg` under the verifying key
/// `pk` succeeds.
pub uninterp spec fn ed25519_accepts(pk: Seq<u8>, msg: Seq<u8>, sig: Seq<u8>) -> bool;

/// Relies on ed25519-dalek's `SigningKey::generate` over the operating
/// system's secure random source. Nothing is promised of the seed beyond
/// its length.
#[verifier::external_body]
fn dalek_generate_seed() -> (r: Vec<u8>)
    ensures
        r@.len() == 32,
{
    let key = ed25519_dalek::SigningKey::generate(&mut rand::rngs::OsRng);
    key.as_bytes().to_vec()
}

/// Relies on ed25519-dalek's `SigningKey::verifying_key`: the public key is
/// a function of the seed alone, 32 bytes long, and always a valid point.
#[verifier::external_body]
fn dalek_derive_public(seed: &[u8]) -> (r: Vec<u8>)
    requires
        seed@.len() == 32,
    ensures
        r@ == ed25519_public_of(seed@),
        r@.len() == 32,
        ed25519_valid_public(r@),
{
    let mut seed_arr = [0u8; 32];
    seed_arr.copy_from_slice(seed);
    let key = ed25519_dalek::SigningKey::from_bytes(&seed_arr);
    key.verifying_key().as_bytes().to_vec()
}

/// Relies on ed25519-dalek's `Signer::sign`: deterministic in seed and
/// message, 64 bytes long, and accepted by `Verifier::verify` under the
/// verifying key derived from the same seed.
#[verifier::external_body]
fn dalek_sign(seed: &[u8], msg: &[u8]) -> (r: Vec<u8>)
    requires
        seed@.len() == 32,
    ensures
        r@ == ed25519_signature_of(seed@, msg@),
        r@.len() == 64,
        ed25519_accepts(ed25519_public_of(seed@), msg@, r@),
{
    let mut seed_arr = [0u8; 32];
    seed_arr.copy_from_slice(seed);
    let key = ed25519_dalek::SigningKey::from_bytes(&seed_arr);
    ed25519_dalek::Signer::sign(&key, msg).to_bytes().to_vec()
}

/// Relies on ed25519-dalek's `VerifyingKey::from_bytes`, which succeeds
/// exactly on valid point encodings.
#[verifier::external_body]
fn dalek_public_is_valid(pk: &[u8]) -> (r: bool)
    requires
        pk@.len() == 32,
    ensures
        r == ed25519_valid_public(pk@),
{
    let mut pk_arr = [0u8; 32];
    pk_arr.copy_from_slice(pk);
    ed25519_dalek::VerifyingKey::from_bytes(&pk_arr).is_ok()
}

/// Relies on ed25519-dalek's `Verifier::verify`: a deterministic check of
/// the signature over the message under the verifying key.
#[verifier::external_body]
fn dalek_verify(pk: &[u8], msg: &[u8], sig: &[u8]) -> (r: bool)
    requires
        pk@.len() == 32,
        ed25519_valid_public(pk@),
        sig@.len() == 64,
    ensures
        r == ed25519_accepts(pk@, msg@, sig@),
{
    let mut pk_arr = [0u8; 32];
    pk_arr.copy_from_slice(pk);
    let key = match ed25519_dalek::VerifyingKey::from_bytes(&pk_arr) {
        Ok(key) => key,
        Err(_) => {
            return false;
        },
    };
    let mut sig_arr = [0u8; 64];
    sig_arr.copy_from_slice(sig);
    let signature = ed25519_dalek::Signature::from_bytes(&sig_arr);
    ed25519_dalek::Verifier::verify(&key, msg, &signature).is_ok()
}

/// The Ed25519 signer: holds the 32-byte seed of its signing key.
pub struct Ed25519Signer {
    key: Vec<u8>,
}

/// The Ed25519 verifier: holds a validated 32-byte verifying key.
pub struct Ed25519Verifier {
    key: Vec<u8>,
}

impl Ed25519Signer {
    /// The seed this instance signs with.
    pub closed spec fn key_bytes(&self) -> Seq<u8> {
        self.key@
    }

    /// A well-formed signer holds a seed of exactly the required length.
    pub open spec fn wf(&self) -> bool {
        self.key_bytes().len() == KEY_LENGTH
    }

    /// Wrap an exactly-sized seed.
    pub fn new(key: Vec<u8>) -> (r: Ed25519Signer)
        requires
            key@.len() == KEY_LENGTH,
        ensures
            r.wf(),
            r.key_bytes() == key@,
    {
        Ed25519Signer { key }
    }

    /// Validate raw seed bytes: anything shorter than 32 bytes is rejected
    /// with `InvalidKey`; longer buffers are truncated to their 32-byte
    /// prefix.
    pub fn try_new(key: &[u8]) -> (r: Result<Ed25519Signer, TextError>)
        ensures
            r is Ok <==> key@.len() >= KEY_LENGTH,
            r matches Ok(s) ==> s.wf() && s.key_bytes() == key@.take(KEY_LENGTH as int),
            r matches Err(e) ==> e == TextError::InvalidKey,
    {
        if key.len() < KEY_LENGTH {
            return Err(TextError::InvalidKey);
        }
        let key = take_bytes(key, KEY_LENGTH);
        Ok(Ed25519Signer { key })
    }

    /// Sign: the 64-byte deterministic signature of the whole message. The
    /// result always verifies under the verifying key derived from the same
    /// seed.
    pub fn sign(&self, msg: &[u8]) -> (r: Vec<u8>)
        requires
            self.wf(),
        ensures
            r@ == ed25519_signature_of(self.key_bytes(), msg@),
            r@.len() == SIG_LENGTH as nat,
            ed25519_accepts(ed25519_public_of(self.key_bytes()), msg@, r@),
    {
        dalek_sign(self.key.as_slice(), msg)
    }

    /// Generate a fresh key pair: element 0 is the 32-byte private seed,
    /// element 1 the 32-byte verifying key derived from it. The ordering is
    /// part of the contract — callers persist element 0 as the private key
    /// file and element 1 as the public key file.
    pub fn generate() -> (r: Vec<Vec<u8>>)
        ensures
            r@.len() == 2,
            r@[0]@.len() == KEY_LENGTH,
            r@[1]@ == ed25519_public_of(r@[0]@),
            r@[1]@.len() == KEY_LENGTH,
            ed25519_valid_public(r@[1]@),
    {
        let seed = dalek_generate_seed();
        let public = dalek_derive_public(seed.as_slice());
        let mut res: Vec<Vec<u8>> = Vec::new();
        res.push(seed);
        res.push(public);
        res
    }
}

impl Ed25519Verifier {
    /// The verifying key this instance checks against.
    pub closed spec fn key_bytes(&self) -> Seq<u8> {
        self.key@
    }

    /// A well-formed verifier holds a 32-byte key that is a valid point.
    pub open spec fn wf(&self) -> bool {
        self.key_bytes().len() == KEY_LENGTH && ed25519_valid_public(self.key_bytes())
    }

    /// Validate raw verifying-key bytes: rejected with `InvalidKey` when
    /// shorter than 32 bytes — never for a buffer of at least 32 bytes —
    /// and with `InvalidPublicKey` when the 32-byte prefix is not a valid
    /// point encoding.
    pub fn try_new(key: &[u8]) -> (r: Result<Ed25519Verifier, TextError>)
        ensures
            r is Ok <==> key@.len() >= KEY_LENGTH && ed25519_valid_public(
                key@.take(KEY_LENGTH as int),
            ),
            r matches Ok(v) ==> v.wf() && v.key_bytes() == key@.take(KEY_LENGTH as int),
            r matches Err(e) ==> if key@.len() < KEY_LENGTH {
                e == TextError::InvalidKey
            } else {
                e == TextError::InvalidPublicKey
            },
    {
        if key.len() < KEY_LENGTH {
            return Err(TextError::InvalidKey);
        }
        let key = take_bytes(key, KEY_LENGTH);
        if !dalek_public_is_valid(key.as_slice()) {
            return Err(TextError::InvalidPublicKey);
        }
        Ok(Ed25519Verifier { key })
    }

    /// Verify: a signature buffer shorter than 64 bytes is rejected with
    /// `InvalidSignature` before any cryptographic work; otherwise the
    /// first 64 bytes are checked and the outcome is the returned boolean —
    /// an invalid but well-formed signature is `false`, not an error.
    pub fn verify(&self, msg: &[u8], sig: &[u8]) -> (r: Result<bool, TextError>)
        requires
            self.wf(),
        ensures
            r is Ok <==> sig@.len() >= SIG_LENGTH,
            r matches Ok(b) ==> b == ed25519_accepts(
                self.key_bytes(),
                msg@,
                sig@.take(SIG_LENGTH as int),
            ),
            r matches Err(e) ==> e == TextError::InvalidSignature,
    {
        if sig.len() < SIG_LENGTH {
            return Err(TextError::InvalidSignature);
        }
        let sig64 = take_bytes(sig, SIG_LENGTH);
        Ok(dalek_verify(self.key.as_slice(), msg, sig64.as_slice()))
    }
}

} // verus!
