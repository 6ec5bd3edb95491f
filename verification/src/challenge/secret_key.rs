//! The symmetric key under which challenge tokens are sealed.

use secrecy::ExposeSecret;
use secrecy::Secret;
use vstd::prelude::*;

use crate::challenge::error::ChallengeError;

verus! {

/// Number of bytes in a key: 256 bits.
pub const KEY_LEN: usize = 32;

/// Bytes kept in a `secrecy::Secret`, which wipes them when it is dropped
/// and never prints them. Verus sees nothing inside.
#[verifier::external_body]
pub struct SecretBytes {
    inner: Secret<Vec<u8>>,
}

/// The bytes that a [`SecretBytes`] holds.
pub uninterp spec fn secret_bytes(secret: SecretBytes) -> Seq<u8>;

/// `Secret::new`: takes ownership of the bytes and keeps them as they are.
#[verifier::external_body]
fn conceal(bytes: Vec<u8>) -> (secret: SecretBytes)
    ensures
        secret_bytes(secret) == bytes@,
{
    SecretBytes { inner: Secret::new(bytes) }
}

/// `ExposeSecret::expose_secret`: a reference to the bytes inside, unchanged.
#[verifier::external_body]
fn reveal_bytes(secret: &SecretBytes) -> (bytes: &Vec<u8>)
    ensures
        bytes@ == secret_bytes(*secret),
{
    secret.inner.expose_secret()
}

/// A 256-bit symmetric key.
///
/// Every value of this type holds exactly [`KEY_LEN`] bytes. The bytes are
/// wiped when the key is dropped, and the type has no way to print them.
pub struct SecretKey {
    material: SecretBytes,
}

impl View for SecretKey {
    type V = Seq<u8>;

    closed spec fn view(&self) -> Seq<u8> {
        secret_bytes(self.material)
    }
}

impl SecretKey {
    #[verifier::type_invariant]
    spec fn has_key_length(self) -> bool {
        secret_bytes(self.material).len() == KEY_LEN
    }

    /// Wraps `bytes` as a key if, and only if, there are exactly 32 of them.
    /// Nothing is cut off or filled up.
    pub fn new(bytes: Vec<u8>) -> (result: Result<SecretKey, ChallengeError>)
        ensures
            match result {
                Ok(key) => bytes@.len() == KEY_LEN && key@ == bytes@,
                Err(e) => bytes@.len() != KEY_LEN && e == ChallengeError::InvalidKeyLength,
            },
    {
        if bytes.len() != KEY_LEN {
            return Err(ChallengeError::InvalidKeyLength);
        }
        Ok(SecretKey { material: conceal(bytes) })
    }

    /// The raw key bytes, for the cipher alone. Treat them as sensitive:
    /// do not log them and do not keep a copy.
    pub fn expose(&self) -> (bytes: &[u8])
        ensures
            bytes@ == self@,
            bytes@.len() == KEY_LEN,
    {
        proof {
            use_type_invariant(self);
        }
        reveal_bytes(&self.material).as_slice()
    }
}

} // verus!
