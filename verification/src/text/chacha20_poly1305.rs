use vstd::prelude::*;

use crate::errors::TextError;
use crate::text::skip_bytes;
use crate::text::take_bytes;
use chacha20poly1305::aead::Aead;
use chacha20poly1305::aead::AeadCore;
use chacha20poly1305::KeyInit;

verus! {

/// The length of a ChaCha20-Poly1305 key.
pub const KEY_LENGTH: usize = 32;

/// The length of a ChaCha20-Poly1305 nonce.
pub const NONCE_LENGTH: usize = 12;

/// The length of the authentication tag appended to every ciphertext.
pub const TAG_LENGTH: usize = 16;

/// The sentinel key input (a single dash) that asks for a freshly generated
/// random key.
pub open spec fn is_rand_flag_spec(key: Seq<u8>) -> bool {
    key == seq![45u8]
}

/// Whether `key` is the sentinel that selects random-key mode.
pub fn is_rand_flag(key: &[u8]) -> (r: bool)
    ensures
        r == is_rand_flag_spec(key@),
{
    let r = key.len() == 1 && key[0] == 45;
    proof {
        if r {
            assert(key@ =~= seq![45u8]);
        }
        if is_rand_flag_spec(key@) {
            assert(key@.len() == 1 && key@[0] == 45);
        }
    }
    r
}

/// The ChaCha20-Poly1305 sealing of `msg` under `key` and `nonce`: the
/// ciphertext with the 16-byte authentication tag appended. A pure function
/// of its three arguments; only the chacha20poly1305 crate pins it down.
pub uninterp spec fn chacha_seal(key: Seq<u8>, nonce: Seq<u8>, msg: Seq<u8>) -> Seq<u8>;

/// The ChaCha20-Poly1305 opening of `ct` under `key` and `nonce`: `Some`
/// of the plaintext when the authentication tag checks out, `None`
/// otherwise.
pub uninterp spec fn chacha_open(key: Seq<u8>, nonce: Seq<u8>, ct: Seq<u8>) -> Option<Seq<u8>>;

/// Relies on chacha20poly1305's `AeadCore::generate_nonce` over the
/// operating system's secure random source: 12 fresh bytes.
#[verifier::external_body]
fn aead_generate_nonce() -> (r: Vec<u8>)
    ensures
        r@.len() == NONCE_LENGTH as nat,
{
    let nonce = chacha20poly1305::ChaCha20Poly1305::generate_nonce(
        &mut chacha20poly1305::aead::OsRng,
    );
    nonce.as_slice().to_vec()
}

/// Relies on chacha20poly1305's `KeyInit::generate_key` over the operating
/// system's secure random source: 32 fresh bytes.
#[verifier::external_body]
fn aead_generate_key() -> (r: Vec<u8>)
    ensures
        r@.len() == KEY_LENGTH as nat,
{
    let key = chacha20poly1305::ChaCha20Poly1305::generate_key(&mut chacha20poly1305::aead::OsRng);
    key.as_slice().to_vec()
}

/// Relies on chacha20poly1305's `Aead::encrypt`: deterministic in key,
/// nonce and message; the result is the message length plus the 16-byte
/// tag; it fails only when the message is too long for the 32-bit block
/// counter; and `Aead::decrypt` inverts it.
#[verifier::external_body]
fn aead_seal(key: &[u8], nonce: &[u8], msg: &[u8]) -> (r: Result<Vec<u8>, TextError>)
    requires
        key@.len() == KEY_LENGTH as nat,
        nonce@.len() == NONCE_LENGTH as nat,
    ensures
        r matches Ok(ct) ==> ct@ == chacha_seal(key@, nonce@, msg@),
        r matches Ok(ct) ==> ct@.len() == msg@.len() + TAG_LENGTH as nat,
        r matches Ok(ct) ==> chacha_open(key@, nonce@, ct@) == Some(msg@),
        msg@.len() < 0x3fffffffc0 ==> r is Ok,
        r matches Err(e) ==> e == TextError::EncryptionFailed,
{
    let cipher = chacha20poly1305::ChaCha20Poly1305::new(chacha20poly1305::Key::from_slice(key));
    let nonce = chacha20poly1305::Nonce::from_slice(nonce);
    cipher.encrypt(nonce, msg).map_err(|_| TextError::EncryptionFailed)
}

/// Relies on chacha20poly1305's `Aead::decrypt`: deterministic in key,
/// nonce and ciphertext, succeeding exactly when the authentication tag
/// checks out, in which case it returns the sealed plaintext — the
/// ciphertext minus its 16-byte tag.
#[verifier::external_body]
fn aead_open(key: &[u8], nonce: &[u8], ct: &[u8]) -> (r: Option<Vec<u8>>)
    requires
        key@.len() == KEY_LENGTH as nat,
        nonce@.len() == NONCE_LENGTH as nat,
    ensures
        r matches Some(msg) ==> chacha_open(key@, nonce@, ct@) == Some(msg@),
        r matches Some(msg) ==> ct@.len() == msg@.len() + TAG_LENGTH as nat,
        r is None ==> chacha_open(key@, nonce@, ct@) is None,
{
    let cipher = chacha20poly1305::ChaCha20Poly1305::new(chacha20poly1305::Key::from_slice(key));
    let nonce = chacha20poly1305::Nonce::from_slice(nonce);
    cipher.decrypt(nonce, ct).ok()
}

/// The encrypting half of the AEAD engine: holds the resolved 32-byte key.
pub struct Chacha20Poly1305Encryptor {
    key: Vec<u8>,
}

/// The decrypting half of the AEAD engine: holds the resolved 32-byte key.
pub struct Chacha20Poly1305Decryptor {
    key: Vec<u8>,
}

impl Chacha20Poly1305Encryptor {
    /// The key every seal operation uses.
    pub closed spec fn key_bytes(&self) -> Seq<u8> {
        self.key@
    }

    /// A well-formed encryptor holds a key of exactly the required length.
    pub open spec fn wf(&self) -> bool {
        self.key_bytes().len() == KEY_LENGTH
    }

    /// Wrap an exactly-sized key.
    pub fn new(key: Vec<u8>) -> (r: Chacha20Poly1305Encryptor)
        requires
            key@.len() == KEY_LENGTH,
        ensures
            r.wf(),
            r.key_bytes() == key@,
    {
        Chacha20Poly1305Encryptor { key }
    }

    /// Resolve the key. The sentinel selects random-key mode: a fresh
    /// 32-byte key is generated. Any other input of at least 32 bytes is
    /// used directly, truncated to its 32-byte prefix; shorter inputs are
    /// rejected with `InvalidKey`.
    pub fn try_new(key: &[u8]) -> (r: Result<Chacha20Poly1305Encryptor, TextError>)
        ensures
            r is Ok <==> is_rand_flag_spec(key@) || key@.len() >= KEY_LENGTH,
            r matches Ok(en) ==> en.wf(),
            !is_rand_flag_spec(key@) ==> (r matches Ok(en) ==> en.key_bytes() == key@.take(
                KEY_LENGTH as int,
            )),
            r matches Err(e) ==> e == TextError::InvalidKey,
    {
        if is_rand_flag(key) {
            let fresh = aead_generate_key();
            return Ok(Chacha20Poly1305Encryptor { key: fresh });
        }
        if key.len() < KEY_LENGTH {
            return Err(TextError::InvalidKey);
        }
        let key = take_bytes(key, KEY_LENGTH);
        Ok(Chacha20Poly1305Encryptor { key })
    }

    /// The resolved key, so that random-key mode can embed it in the
    /// record.
    pub fn get_key(&self) -> (r: Vec<u8>)
        ensures
            r@ == self.key_bytes(),
    {
        let mut out: Vec<u8> = Vec::new();
        out.extend_from_slice(self.key.as_slice());
        proof {
            assert(out@ =~= self.key@);
        }
        out
    }

    /// Encrypt: generate a fresh 12-byte nonce, seal the whole message, and
    /// return `nonce || ciphertext || tag`. Opening that record under the
    /// same key recovers the message.
    pub fn encrypt(&self, msg: &[u8]) -> (r: Result<Vec<u8>, TextError>)
        requires
            self.wf(),
        ensures
            r matches Ok(rec) ==> {
                &&& rec@.len() == msg@.len() + NONCE_LENGTH + TAG_LENGTH
                &&& rec@.take(NONCE_LENGTH as int).len() == NONCE_LENGTH
                &&& chacha_open(
                    self.key_bytes(),
                    rec@.take(NONCE_LENGTH as int),
                    rec@.skip(NONCE_LENGTH as int),
                ) == Some(msg@)
                &&& rec@.skip(NONCE_LENGTH as int) == chacha_seal(
                    self.key_bytes(),
                    rec@.take(NONCE_LENGTH as int),
                    msg@,
                )
            },
            msg@.len() < 0x3fffffffc0 ==> r is Ok,
            r matches Err(e) ==> e == TextError::EncryptionFailed,
    {
        let nonce = aead_generate_nonce();
        let sealed = aead_seal(self.key.as_slice(), nonce.as_slice(), msg)?;
        let mut rec = nonce;
        let ghost nonce_view = rec@;
        let ghost sealed_view = sealed@;
        let mut sealed = sealed;
        rec.append(&mut sealed);
        proof {
            assert(rec@.take(NONCE_LENGTH as int) =~= nonce_view);
            assert(rec@.skip(NONCE_LENGTH as int) =~= sealed_view);
        }
        Ok(rec)
    }
}

impl Chacha20Poly1305Decryptor {
    /// The key every open operation uses.
    pub closed spec fn key_bytes(&self) -> Seq<u8> {
        self.key@
    }

    /// A well-formed decryptor holds a key of exactly the required length.
    pub open spec fn wf(&self) -> bool {
        self.key_bytes().len() == KEY_LENGTH
    }

    /// Wrap an exactly-sized key.
    pub fn new(key: Vec<u8>) -> (r: Chacha20Poly1305Decryptor)
        requires
            key@.len() == KEY_LENGTH,
        ensures
            r.wf(),
            r.key_bytes() == key@,
    {
        Chacha20Poly1305Decryptor { key }
    }

    /// Resolve the key for decryption: at least 32 bytes, truncated to the
    /// 32-byte prefix; shorter inputs are rejected with `InvalidKey`.
    pub fn try_new(key: &[u8]) -> (r: Result<Chacha20Poly1305Decryptor, TextError>)
        ensures
            r is Ok <==> key@.len() >= KEY_LENGTH,
            r matches Ok(de) ==> de.wf() && de.key_bytes() == key@.take(KEY_LENGTH as int),
            r matches Err(e) ==> e == TextError::InvalidKey,
    {
        if key.len() < KEY_LENGTH {
            return Err(TextError::InvalidKey);
        }
        let key = take_bytes(key, KEY_LENGTH);
        Ok(Chacha20Poly1305Decryptor { key })
    }

    /// What decrypting a `nonce || ciphertext || tag` record yields: the
    /// record must be longer than the nonce, and the remainder must open
    /// under the key and embedded nonce; an authentication failure is
    /// reported as `DecryptionFailed` with no finer cause exposed.
    pub open spec fn decrypt_spec(key: Seq<u8>, rec: Seq<u8>) -> Result<Seq<u8>, TextError> {
        if rec.len() <= NONCE_LENGTH {
            Err(TextError::InvalidRecord)
        } else {
            match chacha_open(key, rec.take(NONCE_LENGTH as int), rec.skip(NONCE_LENGTH as int)) {
                Some(msg) => Ok(msg),
                None => Err(TextError::DecryptionFailed),
            }
        }
    }

    /// Decrypt a `nonce || ciphertext || tag` record. A recovered
    /// plaintext is exactly 28 bytes shorter than the record: the nonce
    /// and the tag are stripped.
    pub fn decrypt(&self, rec: &[u8]) -> (r: Result<Vec<u8>, TextError>)
        requires
            self.wf(),
        ensures
            r matches Ok(msg) ==> Self::decrypt_spec(self.key_bytes(), rec@) == Ok::<_, TextError>(
                msg@,
            ),
            r matches Ok(msg) ==> rec@.len() == msg@.len() + (NONCE_LENGTH + TAG_LENGTH),
            r matches Err(e) ==> Self::decrypt_spec(self.key_bytes(), rec@) == Err::<Seq<u8>, _>(e),
    {
        if rec.len() <= NONCE_LENGTH {
            return Err(TextError::InvalidRecord);
        }
        let nonce = take_bytes(rec, NONCE_LENGTH);
        let ct = skip_bytes(rec, NONCE_LENGTH);
        match aead_open(self.key.as_slice(), nonce.as_slice(), ct.as_slice()) {
            Some(msg) => Ok(msg),
            None => Err(TextError::DecryptionFailed),
        }
    }
}

} // verus!
