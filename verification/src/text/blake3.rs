use vstd::prelude::*;

use crate::errors::TextError;
use crate::gen_pass::{genpass_char_ok, process_genpass};
use crate::text::bytes_eq;
use crate::text::take_bytes;

verus! {

/// The length every Blake3 key must have.
pub const KEY_LENGTH: usize = 32;

/// The Blake3 keyed hash of `msg` under the 32-byte key `key`: a 32-byte
/// digest. Its value is pinned down only by the blake3 crate.
pub uninterp spec fn blake3_keyed_digest(key: Seq<u8>, msg: Seq<u8>) -> Seq<u8>;

/// Whether `sig` is the Blake3 keyed-hash signature of `msg` under `key`.
pub open spec fn blake3_sig_ok(key: Seq<u8>, msg: Seq<u8>, sig: Seq<u8>) -> bool {
    sig == blake3_keyed_digest(key, msg)
}

/// Relies on blake3's `keyed_hash`: a pure function of key and message with
/// a 32-byte digest.
#[verifier::external_body]
fn keyed_hash(key: &[u8], msg: &[u8]) -> (r: Vec<u8>)
    requires
        key@.len() == 32,
    ensures
        r@ == blake3_keyed_digest(key@, msg@),
        r@.len() == 32,
{
    let mut key_arr = [0u8; 32];
    key_arr.copy_from_slice(key);
    ::blake3::keyed_hash(&key_arr, msg).as_bytes().to_vec()
}

/// The Blake3 keyed-hash signer and verifier. It holds the 32-byte key the
/// hash is parameterized with.
pub struct Blake3 {
    key: Vec<u8>,
}

impl Blake3 {
    /// The key this instance signs and verifies with.
    pub closed spec fn key_bytes(&self) -> Seq<u8> {
        self.key@
    }

    /// A well-formed instance holds a key of exactly the required length.
    pub open spec fn wf(&self) -> bool {
        self.key_bytes().len() == KEY_LENGTH
    }

    /// Wrap an exactly-sized key.
    pub fn new(key: Vec<u8>) -> (r: Blake3)
        requires
            key@.len() == KEY_LENGTH,
        ensures
            r.wf(),
            r.key_bytes() == key@,
    {
        Blake3 { key }
    }

    /// Validate raw key bytes: anything shorter than 32 bytes is rejected
    /// with `InvalidKey`; longer buffers are truncated to their 32-byte
    /// prefix.
    pub fn try_new(key: &[u8]) -> (r: Result<Blake3, TextError>)
        ensures
            r is Ok <==> key@.len() >= KEY_LENGTH,
            r matches Ok(b) ==> b.wf() && b.key_bytes() == key@.take(KEY_LENGTH as int),
            r matches Err(e) ==> e == TextError::InvalidKey,
    {
        if key.len() < KEY_LENGTH {
            return Err(TextError::InvalidKey);
        }
        let key = take_bytes(key, KEY_LENGTH);
        Ok(Blake3 { key })
    }

    /// Sign: the 32-byte keyed hash of the whole message. The result always
    /// verifies against the same key and message.
    pub fn sign(&self, msg: &[u8]) -> (r: Vec<u8>)
        requires
            self.wf(),
        ensures
            r@ == blake3_keyed_digest(self.key_bytes(), msg@),
            r@.len() == 32,
            blake3_sig_ok(self.key_bytes(), msg@, r@),
    {
        keyed_hash(self.key.as_slice(), msg)
    }

    /// Verify: recompute the keyed hash and compare byte for byte. A
    /// mismatch is the `false` outcome, never an error.
    pub fn verify(&self, msg: &[u8], sig: &[u8]) -> (r: bool)
        requires
            self.wf(),
        ensures
            r == blake3_sig_ok(self.key_bytes(), msg@, sig@),
    {
        let expected = keyed_hash(self.key.as_slice(), msg);
        bytes_eq(expected.as_slice(), sig)
    }

    /// Generate one fresh 32-byte key, drawn from the full password
    /// character set, as a single-element result set.
    pub fn generate() -> (r: Vec<Vec<u8>>)
        ensures
            r@.len() == 1,
            r@[0]@.len() == KEY_LENGTH,
            forall|i: int|
                0 <= i < r@[0]@.len() ==> genpass_char_ok(
                    true,
                    true,
                    true,
                    true,
                    #[trigger] r@[0]@[i],
                ),
    {
        let pass = process_genpass(32, true, true, true, true);
        let mut res: Vec<Vec<u8>> = Vec::new();
        res.push(pass);
        res
    }
}

/// Signing then verifying with the same key always succeeds: the verifier
/// accepts exactly the keyed digest of the message.
pub proof fn lemma_blake3_round_trip(key: Seq<u8>, msg: Seq<u8>)
    ensures
        blake3_sig_ok(key, msg, blake3_keyed_digest(key, msg)),
{
}

/// Any signature other than the keyed digest — for instance one with a
/// single flipped bit — is rejected, as a `false` outcome rather than an
/// error.
pub proof fn lemma_blake3_rejects_other_sigs(key: Seq<u8>, msg: Seq<u8>, sig: Seq<u8>)
    requires
        sig != blake3_keyed_digest(key, msg),
    ensures
        !blake3_sig_ok(key, msg, sig),
{
}

} // verus!
