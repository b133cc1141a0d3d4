use vstd::prelude::*;

verus! {

/// The failure taxonomy of the text engine.
///
/// Mismatched signatures and failed hash comparisons are *not* errors: the
/// verify operations report them as a plain `false`. These variants cover the
/// genuine failure paths only.
#[derive(Clone, Copy, Debug, PartialEq, Eq, Structural)]
pub enum TextError {
    /// A key or input source could not be read.
    IoError,
    /// The supplied key is shorter than the algorithm requires.
    InvalidKey,
    /// A 32-byte verifying key is not a valid point encoding. Distinct from
    /// `InvalidKey`, which is reserved for short keys.
    InvalidPublicKey,
    /// The supplied signature buffer is structurally malformed (too short).
    InvalidSignature,
    /// A ciphertext input was not valid unpadded URL-safe base64 text.
    InvalidEncoding,
    /// A decoded ciphertext record is shorter than the minimum structural
    /// length for the active key-resolution mode.
    InvalidRecord,
    /// The underlying AEAD seal operation failed.
    EncryptionFailed,
    /// The underlying AEAD open operation failed: wrong key, corrupted
    /// ciphertext, or truncated input. The cause is deliberately not exposed.
    DecryptionFailed,
    /// A message authentication code could not be produced.
    SigningFailed,
}

impl TextError {
    /// A human-readable description, for callers that print errors.
    pub fn message(&self) -> (r: &'static str)
        ensures
            r@.len() > 0,
    {
        proof {
            reveal_strlit("could not read the input source");
            reveal_strlit("the key is shorter than required");
            reveal_strlit("the key is not a valid public key encoding");
            reveal_strlit("the signature buffer is shorter than required");
            reveal_strlit("the text is not valid unpadded url-safe base64");
            reveal_strlit("the record is too short for this key mode");
            reveal_strlit("encrypt failed");
            reveal_strlit("decrypt failed");
            reveal_strlit("signing failed");
        }
        match self {
            TextError::IoError => "could not read the input source",
            TextError::InvalidKey => "the key is shorter than required",
            TextError::InvalidPublicKey => "the key is not a valid public key encoding",
            TextError::InvalidSignature => "the signature buffer is shorter than required",
            TextError::InvalidEncoding => "the text is not valid unpadded url-safe base64",
            TextError::InvalidRecord => "the record is too short for this key mode",
            TextError::EncryptionFailed => "encrypt failed",
            TextError::DecryptionFailed => "decrypt failed",
            TextError::SigningFailed => "signing failed",
        }
    }
}

} // verus!
