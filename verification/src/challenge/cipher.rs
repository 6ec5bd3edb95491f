//! AES-256 in GCM mode, as the `aes-gcm` crate computes it.
//!
//! Nothing in this file is proved. The cipher's output is given a name, and
//! the two calls into the crate are described by what its source shows of
//! them; the rest of the library is verified against these descriptions.

use aes_gcm::aead::Aead;
use aes_gcm::aead::OsRng;
use aes_gcm::AeadCore;
use aes_gcm::Aes256Gcm;
use aes_gcm::Key;
use aes_gcm::KeyInit;
use aes_gcm::Nonce;
use vstd::prelude::*;

verus! {

/// Number of bytes in a nonce: 96 bits.
pub const NONCE_LEN: usize = 12;

/// Number of bytes in the authentication tag that ends a sealed message.
pub const TAG_LEN: usize = 16;

/// The longest plaintext, in bytes, that the cipher accepts.
pub const MAX_PLAINTEXT_LEN: u64 = 0x10_0000_0000;

/// `aes_gcm::Error`: says that the cipher failed, and on purpose not why.
#[verifier::external_type_specification]
#[verifier::external_body]
pub struct ExCipherError(aes_gcm::Error);

/// The ciphertext, followed by its tag, that AES-256-GCM yields for a
/// plaintext under a key and a nonce, with no associated data.
pub uninterp spec fn aes256_gcm_sealed(key: Seq<u8>, nonce: Seq<u8>, plaintext: Seq<u8>) -> Seq<u8>;

/// The plaintext that AES-256-GCM recovers from a sealed message under a key
/// and a nonce, or `None` where it turns the message down: most of all,
/// where the message does not end in the right tag.
pub uninterp spec fn aes256_gcm_opened(key: Seq<u8>, nonce: Seq<u8>, sealed: Seq<u8>) -> Option<
    Seq<u8>,
>;

/// `AeadCore::generate_nonce` on the operating system's random source: 12
/// bytes. Which bytes is open, so two calls may differ.
#[verifier::external_body]
pub(crate) fn fresh_nonce() -> (nonce: [u8; 12]) {
    Aes256Gcm::generate_nonce(&mut OsRng).into()
}

/// `Aead::encrypt` of `Aes256Gcm`.
///
/// The crate panics on a key that is not 32 or a nonce that is not 12 bytes
/// long, so such input is left out. It refuses a plaintext of more than 2^36
/// bytes and accepts every other. What it returns is as long as the
/// plaintext and a 16-byte tag together, and `Aead::decrypt` under the same
/// key and nonce recomputes that tag and undoes the keystream, which gives
/// the plaintext back.
#[verifier::external_body]
pub(crate) fn seal(key: &[u8], nonce: &[u8], plaintext: &[u8]) -> (sealed: Result<
    Vec<u8>,
    aes_gcm::Error,
>)
    requires
        key@.len() == 32,
        nonce@.len() == 12,
    ensures
        sealed is Ok <==> plaintext@.len() <= MAX_PLAINTEXT_LEN,
        sealed matches Ok(bytes) ==> bytes@ == aes256_gcm_sealed(key@, nonce@, plaintext@),
        sealed matches Ok(bytes) ==> bytes@.len() == plaintext@.len() + TAG_LEN,
        sealed matches Ok(bytes) ==> aes256_gcm_opened(key@, nonce@, bytes@) == Some(plaintext@),
{
    let cipher = Aes256Gcm::new(Key::<Aes256Gcm>::from_slice(key));
    cipher.encrypt(Nonce::from_slice(nonce), plaintext)
}

/// `Aead::decrypt` of `Aes256Gcm`.
///
/// The crate panics on a key that is not 32 or a nonce that is not 12 bytes
/// long, so such input is left out. It turns down a message that is shorter
/// than the tag or longer than the cipher's limit, and one whose last 16
/// bytes are not the tag it computes itself. From any other it returns the
/// plaintext, which is as long as the message without its tag.
#[verifier::external_body]
pub(crate) fn open(key: &[u8], nonce: &[u8], sealed: &[u8]) -> (opened: Result<
    Vec<u8>,
    aes_gcm::Error,
>)
    requires
        key@.len() == 32,
        nonce@.len() == 12,
    ensures
        match opened {
            Ok(bytes) => aes256_gcm_opened(key@, nonce@, sealed@) == Some(bytes@),
            Err(_) => aes256_gcm_opened(key@, nonce@, sealed@) is None,
        },
        opened matches Ok(bytes) ==> bytes@.len() + TAG_LEN == sealed@.len(),
{
    let cipher = Aes256Gcm::new(Key::<Aes256Gcm>::from_slice(key));
    cipher.decrypt(Nonce::from_slice(nonce), sealed)
}

} // verus!
