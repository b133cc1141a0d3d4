pub mod blake3;
pub mod chacha20_poly1305;
pub mod ed25519;

use vstd::prelude::*;

use crate::b64::{ascii_bytes_of, b64_decode, b64_decoding_of, b64_encode};
use crate::errors::TextError;
use vstd::utf8::is_ascii_chars;
use crate::text::blake3::Blake3;
use crate::text::blake3::blake3_sig_ok;
use crate::text::chacha20_poly1305::{
    chacha_seal, is_rand_flag, is_rand_flag_spec, Chacha20Poly1305Decryptor,
    Chacha20Poly1305Encryptor, KEY_LENGTH, NONCE_LENGTH, TAG_LENGTH,
};
use crate::text::ed25519::{
    ed25519_accepts, ed25519_public_of, ed25519_signature_of, ed25519_valid_public, Ed25519Signer,
    Ed25519Verifier,
};

verus! {

/// The closed set of signing algorithms the engine dispatches over.
#[derive(Clone, Copy, Debug, PartialEq, Eq, Structural)]
pub enum TextSignFormat {
    Blake3,
    Ed25519,
}

/// Byte-for-byte comparison of two slices.
pub(crate) fn bytes_eq(a: &[u8], b: &[u8]) -> (r: bool)
    ensures
        r == (a@ == b@),
{
    if a.len() != b.len() {
        return false;
    }
    let n = a.len();
    let mut i: usize = 0;
    while i < n
        invariant
            n == a@.len() == b@.len(),
            i <= n,
            forall|j: int| 0 <= j < i ==> a@[j] == b@[j],
        decreases n - i,
    {
        if a[i] != b[i] {
            return false;
        }
        i = i + 1;
    }
    proof {
        assert(a@ =~= b@);
    }
    true
}

/// The first `n` bytes of a slice, as a fresh vector.
pub(crate) fn take_bytes(data: &[u8], n: usize) -> (r: Vec<u8>)
    requires
        n <= data@.len(),
    ensures
        r@ == data@.take(n as int),
{
    let mut out: Vec<u8> = Vec::new();
    let mut i: usize = 0;
    while i < n
        invariant
            n <= data@.len(),
            i <= n,
            out@.len() == i,
            forall|j: int| 0 <= j < i ==> out@[j] == data@[j],
        decreases n - i,
    {
        out.push(data[i]);
        i = i + 1;
    }
    proof {
        assert(out@ =~= data@.take(n as int));
    }
    out
}

/// The bytes of a slice from position `n` on, as a fresh vector.
pub(crate) fn skip_bytes(data: &[u8], n: usize) -> (r: Vec<u8>)
    requires
        n <= data@.len(),
    ensures
        r@ == data@.skip(n as int),
{
    let mut out: Vec<u8> = Vec::new();
    let mut i: usize = n;
    let len = data.len();
    while i < len
        invariant
            n <= i <= len == data@.len(),
            out@.len() == i - n,
            forall|j: int| 0 <= j < out@.len() ==> out@[j] == data@[j + n],
        decreases len - i,
    {
        out.push(data[i]);
        i = i + 1;
    }
    proof {
        assert(out@ =~= data@.skip(n as int));
    }
    out
}

/// The signature the engine produces for `msg` under the raw key bytes
/// `key`, per algorithm. The key is the 32-byte prefix of the supplied
/// buffer.
pub open spec fn text_signature_of(format: TextSignFormat, key: Seq<u8>, msg: Seq<u8>) -> Seq<
    u8,
> {
    match format {
        TextSignFormat::Blake3 => blake3::blake3_keyed_digest(key.take(32), msg),
        TextSignFormat::Ed25519 => ed25519_signature_of(key.take(32), msg),
    }
}

/// Sign a whole message under raw key bytes: the key must be at least 32
/// bytes (`InvalidKey` otherwise) and its 32-byte prefix is used.
pub fn process_text_sign(data: &[u8], key: &[u8], format: TextSignFormat) -> (r: Result<
    Vec<u8>,
    TextError,
>)
    ensures
        r is Ok <==> key@.len() >= 32,
        r matches Ok(sig) ==> sig@ == text_signature_of(format, key@, data@),
        r matches Ok(sig) ==> sig@.len() == (match format {
            TextSignFormat::Blake3 => 32int,
            TextSignFormat::Ed25519 => 64int,
        }),
        r matches Err(e) ==> e == TextError::InvalidKey,
{
    match format {
        TextSignFormat::Blake3 => {
            let signer = Blake3::try_new(key)?;
            Ok(signer.sign(data))
        },
        TextSignFormat::Ed25519 => {
            let signer = Ed25519Signer::try_new(key)?;
            Ok(signer.sign(data))
        },
    }
}

/// Whether the engine accepts `sig` for `msg` under the raw key bytes
/// `key`, per algorithm. For Ed25519 only the first 64 signature bytes are
/// interpreted.
pub open spec fn text_verify_spec(
    format: TextSignFormat,
    key: Seq<u8>,
    msg: Seq<u8>,
    sig: Seq<u8>,
) -> bool {
    match format {
        TextSignFormat::Blake3 => blake3_sig_ok(key.take(32), msg, sig),
        TextSignFormat::Ed25519 => ed25519_accepts(key.take(32), msg, sig.take(64)),
    }
}

/// Verify a signature over a whole message under raw key bytes. A mismatch
/// is the `false` outcome; errors are reserved for a short key
/// (`InvalidKey`), an Ed25519 key that is not a valid point
/// (`InvalidPublicKey`), and a signature buffer shorter than 64 bytes
/// (`InvalidSignature`).
pub fn process_text_verify(data: &[u8], key: &[u8], format: TextSignFormat, sig: &[u8]) -> (r:
    Result<bool, TextError>)
    ensures
        format == TextSignFormat::Blake3 ==> (r is Ok <==> key@.len() >= 32),
        format == TextSignFormat::Ed25519 ==> (r is Ok <==> key@.len() >= 32
            && ed25519_valid_public(key@.take(32)) && sig@.len() >= 64),
        r matches Ok(b) ==> b == text_verify_spec(format, key@, data@, sig@),
        r matches Err(e) ==> if key@.len() < 32 {
            e == TextError::InvalidKey
        } else if format == TextSignFormat::Ed25519 && !ed25519_valid_public(key@.take(32)) {
            e == TextError::InvalidPublicKey
        } else {
            e == TextError::InvalidSignature
        },
{
    match format {
        TextSignFormat::Blake3 => {
            let verifier = Blake3::try_new(key)?;
            Ok(verifier.verify(data, sig))
        },
        TextSignFormat::Ed25519 => {
            let verifier = Ed25519Verifier::try_new(key)?;
            verifier.verify(data, sig)
        },
    }
}

/// Generate fresh key material for an algorithm. Blake3 yields one 32-byte
/// secret; Ed25519 yields the pair `[private seed, public key]`, in that
/// order — callers that persist the result must write element 0 to the
/// private-key file and element 1 to the public-key file.
pub fn process_text_gen_key(format: TextSignFormat) -> (r: Vec<Vec<u8>>)
    ensures
        format == TextSignFormat::Blake3 ==> r@.len() == 1 && r@[0]@.len() == 32 && forall|i: int|
            0 <= i < r@[0]@.len() ==> crate::gen_pass::genpass_char_ok(
                true,
                true,
                true,
                true,
                #[trigger] r@[0]@[i],
            ),
        format == TextSignFormat::Ed25519 ==> {
            &&& r@.len() == 2
            &&& r@[0]@.len() == 32
            &&& r@[1]@ == ed25519_public_of(r@[0]@)
            &&& r@[1]@.len() == 32
            &&& ed25519_valid_public(r@[1]@)
        },
{
    match format {
        TextSignFormat::Blake3 => Blake3::generate(),
        TextSignFormat::Ed25519 => Ed25519Signer::generate(),
    }
}

/// What decrypting base64 ciphertext text yields under raw key bytes,
/// covering both key-resolution modes.
///
/// The text is base64-decoded first (`InvalidEncoding` on failure). With
/// the sentinel key the record must be longer than 44 bytes
/// (`InvalidRecord` otherwise) and begins with the embedded 32-byte key;
/// with an explicit key, which must be at least 32 bytes (`InvalidKey`
/// otherwise), the record begins directly with the 12-byte nonce and must
/// be longer than 12 bytes (`InvalidRecord` otherwise). The remainder is
/// opened under the resolved key; an authentication failure is
/// `DecryptionFailed`.
pub open spec fn decrypt_text_spec(key: Seq<u8>, text: Seq<u8>) -> Result<Seq<u8>, TextError> {
    match b64_decoding_of(true, false, text) {
        Option::None => Err(TextError::InvalidEncoding),
        Option::Some(rec) => if is_rand_flag_spec(key) {
            if rec.len() <= (KEY_LENGTH + NONCE_LENGTH) as int {
                Err(TextError::InvalidRecord)
            } else {
                Chacha20Poly1305Decryptor::decrypt_spec(
                    rec.take(KEY_LENGTH as int),
                    rec.skip(KEY_LENGTH as int),
                )
            }
        } else if key.len() < KEY_LENGTH {
            Err(TextError::InvalidKey)
        } else {
            Chacha20Poly1305Decryptor::decrypt_spec(key.take(KEY_LENGTH as int), rec)
        },
    }
}

/// Encrypt a whole message into self-describing base64 text.
///
/// With the sentinel key a fresh key is generated and embedded:
/// `key || nonce || ciphertext || tag`; with an explicit key (at least 32
/// bytes, 32-byte prefix used) the record is `nonce || ciphertext || tag`.
/// Either way the record is encoded as unpadded URL-safe base64 (ASCII
/// text), its decoded length is the message length plus 28 or 60 bytes,
/// and decrypting the result under the same key input yields the message
/// back — the round trip holds in both modes.
pub fn process_encrypt_text(key: &[u8], text: &[u8]) -> (r: Result<String, TextError>)
    ensures
        r matches Ok(t) ==> decrypt_text_spec(key@, ascii_bytes_of(t@)) == Ok::<_, TextError>(
            text@,
        ),
        r matches Ok(t) ==> is_ascii_chars(t@),
        !is_rand_flag_spec(key@) ==> (r matches Ok(t)
            ==> b64_decoding_of(true, false, ascii_bytes_of(t@)) matches Some(rec) && rec.len()
            == text@.len() + (NONCE_LENGTH + TAG_LENGTH) && rec.skip(NONCE_LENGTH as int)
            == chacha_seal(key@.take(KEY_LENGTH as int), rec.take(NONCE_LENGTH as int), text@)),
        is_rand_flag_spec(key@) ==> (r matches Ok(t)
            ==> b64_decoding_of(true, false, ascii_bytes_of(t@)) matches Some(rec) && rec.len()
            == text@.len() + (KEY_LENGTH + NONCE_LENGTH + TAG_LENGTH) && rec.skip(
            (KEY_LENGTH + NONCE_LENGTH) as int,
        ) == chacha_seal(
            rec.take(KEY_LENGTH as int),
            rec.subrange(KEY_LENGTH as int, (KEY_LENGTH + NONCE_LENGTH) as int),
            text@,
        )),
        r is Ok ==> is_rand_flag_spec(key@) || key@.len() >= KEY_LENGTH,
        (is_rand_flag_spec(key@) || key@.len() >= KEY_LENGTH) && text@.len() < 0x3fffffffc0
            ==> r is Ok,
        r matches Err(e) ==> if !is_rand_flag_spec(key@) && key@.len() < KEY_LENGTH {
            e == TextError::InvalidKey
        } else {
            e == TextError::EncryptionFailed
        },
{
    let en = Chacha20Poly1305Encryptor::try_new(key)?;
    let rec = en.encrypt(text)?;
    let ghost rec_view = rec@;
    let mut full: Vec<u8>;
    if is_rand_flag(key) {
        full = en.get_key();
        let mut rec = rec;
        full.append(&mut rec);
        proof {
            assert(full@.take(KEY_LENGTH as int) =~= en.key_bytes());
            assert(full@.skip(KEY_LENGTH as int) =~= rec_view);
        }
    } else {
        full = rec;
    }
    let out = b64_encode(full.as_slice(), true, false);
    proof {
        let decoded = b64_decoding_of(true, false, ascii_bytes_of(out@));
        assert(decoded == Some(full@));
        if is_rand_flag_spec(key@) {
            assert(full@.len() > (KEY_LENGTH + NONCE_LENGTH) as int);
            assert(full@.skip((KEY_LENGTH + NONCE_LENGTH) as int) =~= rec_view.skip(
                NONCE_LENGTH as int,
            ));
            assert(full@.subrange(KEY_LENGTH as int, (KEY_LENGTH + NONCE_LENGTH) as int)
                =~= rec_view.take(NONCE_LENGTH as int));
            assert(Chacha20Poly1305Decryptor::decrypt_spec(
                full@.take(KEY_LENGTH as int),
                full@.skip(KEY_LENGTH as int),
            ) == Ok::<_, TextError>(text@));
        } else {
            assert(en.key_bytes() == key@.take(KEY_LENGTH as int));
            assert(Chacha20Poly1305Decryptor::decrypt_spec(key@.take(KEY_LENGTH as int), full@)
                == Ok::<_, TextError>(text@));
        }
    }
    Ok(out)
}

/// Decrypt self-describing base64 ciphertext text under raw key bytes. The
/// result and each failure are exactly what `decrypt_text_spec` assigns to
/// this key and text; a recovered plaintext is the decoded record minus
/// the structural 28 bytes (60 in random-key mode, which also strips the
/// embedded key).
pub fn process_decrypt_text(key: &[u8], text: &[u8]) -> (r: Result<Vec<u8>, TextError>)
    ensures
        r matches Ok(msg) ==> decrypt_text_spec(key@, text@) == Ok::<_, TextError>(msg@),
        r matches Ok(msg) ==> b64_decoding_of(true, false, text@) matches Some(rec) && rec.len()
            == msg@.len() + (if is_rand_flag_spec(key@) {
            KEY_LENGTH + NONCE_LENGTH + TAG_LENGTH
        } else {
            NONCE_LENGTH + TAG_LENGTH
        }),
        r matches Err(e) ==> decrypt_text_spec(key@, text@) == Err::<Seq<u8>, _>(e),
{
    let decoded = match b64_decode(text, true, false) {
        Ok(d) => d,
        Err(e) => {
            return Err(e);
        },
    };
    if is_rand_flag(key) {
        if decoded.len() <= KEY_LENGTH + NONCE_LENGTH {
            return Err(TextError::InvalidRecord);
        }
        let embedded = take_bytes(decoded.as_slice(), KEY_LENGTH);
        let rest = skip_bytes(decoded.as_slice(), KEY_LENGTH);
        let de = Chacha20Poly1305Decryptor::new(embedded);
        de.decrypt(rest.as_slice())
    } else {
        let de = match Chacha20Poly1305Decryptor::try_new(key) {
            Ok(de) => de,
            Err(e) => {
                return Err(e);
            },
        };
        de.decrypt(decoded.as_slice())
    }
}

} // verus!
