//! The token format and what each step of the codec does.
//!
//! A token is the base64 text of `nonce || ciphertext || tag`: 12 bytes of
//! nonce, then what the cipher made of the answer's UTF-8 bytes, which ends
//! in a 16-byte tag. It carries no version and no algorithm identifier.

use vstd::prelude::*;
use vstd::utf8::*;

use crate::challenge::cipher::aes256_gcm_opened;
use crate::challenge::cipher::aes256_gcm_sealed;
use crate::challenge::cipher::MAX_PLAINTEXT_LEN;
use crate::challenge::cipher::NONCE_LEN;
use crate::challenge::cipher::TAG_LEN;
use crate::challenge::encoding::base64_bytes;
use crate::challenge::encoding::base64_len;
use crate::challenge::encoding::base64_text;
use crate::challenge::encoding::to_base64;
use crate::challenge::error::ChallengeError;

verus! {

/// Whether a plaintext of `len` bytes can be made into a token: the cipher
/// takes it, and the token's text is not longer than memory can address.
pub open spec fn sealable(len: nat) -> bool {
    len <= MAX_PLAINTEXT_LEN && base64_len(NONCE_LEN as nat + len + TAG_LEN as nat) <= usize::MAX
}

/// The token for a plaintext under a key and a nonce.
pub open spec fn encoded(plaintext: Seq<char>, key: Seq<u8>, nonce: Seq<u8>) -> Result<
    Seq<char>,
    ChallengeError,
> {
    let bytes = encode_utf8(plaintext);
    if sealable(bytes.len()) {
        Ok(base64_text(nonce + aes256_gcm_sealed(key, nonce, bytes)))
    } else {
        Err(ChallengeError::EncryptionFailed)
    }
}

/// The nonce and the sealed message that a token's bytes are made of.
pub open spec fn parts(data: Seq<u8>) -> Result<(Seq<u8>, Seq<u8>), ChallengeError> {
    if data.len() < NONCE_LEN {
        Err(ChallengeError::MalformedToken)
    } else {
        Ok((data.subrange(0, NONCE_LEN as int), data.subrange(NONCE_LEN as int, data.len() as int)))
    }
}

/// The text that decrypted bytes stand for.
pub open spec fn plaintext_of(bytes: Seq<u8>) -> Result<Seq<char>, ChallengeError> {
    if valid_utf8(bytes) {
        Ok(decode_utf8(bytes))
    } else {
        Err(ChallengeError::InvalidPlaintext)
    }
}

/// What a token decodes to under a key.
pub open spec fn decoded(token: Seq<char>, key: Seq<u8>) -> Result<Seq<char>, ChallengeError> {
    match base64_bytes(token) {
        None => Err(ChallengeError::MalformedToken),
        Some(data) => match parts(data) {
            Err(e) => Err(e),
            Ok((nonce, sealed)) => match aes256_gcm_opened(key, nonce, sealed) {
                None => Err(ChallengeError::DecryptionFailed),
                Some(bytes) => plaintext_of(bytes),
            },
        },
    }
}

/// The verdict on an attempt against a plaintext that a token gave.
pub open spec fn compared(answer: Seq<char>, attempt: Seq<char>) -> Result<(), ChallengeError> {
    if answer == attempt {
        Ok(())
    } else {
        Err(ChallengeError::AnswerMismatch)
    }
}

/// The verdict on an attempt against a token under a key.
pub open spec fn verified(token: Seq<char>, attempt: Seq<char>, key: Seq<u8>) -> Result<
    (),
    ChallengeError,
> {
    match decoded(token, key) {
        Err(e) => Err(e),
        Ok(answer) => compared(answer, attempt),
    }
}

/// Number of bytes that the token of a plaintext stands for: the nonce, one
/// byte of ciphertext for each byte of the plaintext's UTF-8 form, the tag.
pub open spec fn token_len(plaintext: Seq<char>) -> nat {
    NONCE_LEN as nat + encode_utf8(plaintext).len() + TAG_LEN as nat
}

/// An exec result as the spec functions of this module give it.
pub open spec fn text_result(result: Result<String, ChallengeError>) -> Result<
    Seq<char>,
    ChallengeError,
> {
    match result {
        Ok(text) => Ok(text@),
        Err(e) => Err(e),
    }
}

/// An attempt is accepted exactly where the token decodes to it, and a token
/// that does not decode fails the check in the way it failed to decode.
pub proof fn lemma_verified_follows_decoded(token: Seq<char>, attempt: Seq<char>, key: Seq<u8>)
    ensures
        verified(token, attempt, key) is Ok <==> decoded(token, key) == Ok::<
            Seq<char>,
            ChallengeError,
        >(attempt),
        decoded(token, key) matches Err(e) ==> verified(token, attempt, key) == Err::<
            (),
            ChallengeError,
        >(e),
        verified(token, attempt, key) == Err::<(), ChallengeError>(ChallengeError::AnswerMismatch)
            ==> decoded(token, key) is Ok,
{
}

/// A token that decodes to an answer is accepted with that answer as the
/// attempt, and turned down as `AnswerMismatch` with any other attempt,
/// however close: the comparison has regard to case.
pub proof fn lemma_verified_only_with_answer(
    token: Seq<char>,
    answer: Seq<char>,
    attempt: Seq<char>,
    key: Seq<u8>,
)
    requires
        decoded(token, key) == Ok::<Seq<char>, ChallengeError>(answer),
    ensures
        verified(token, answer, key) == Ok::<(), ChallengeError>(()),
        attempt != answer ==> verified(token, attempt, key) == Err::<(), ChallengeError>(
            ChallengeError::AnswerMismatch,
        ),
{
}

/// Bytes too few to hold a nonce are turned down as `MalformedToken`,
/// whatever they are and whatever the key.
pub proof fn lemma_short_bytes_malformed(token: Seq<char>, data: Seq<u8>, key: Seq<u8>)
    requires
        base64_bytes(token) == Some(data),
        data.len() < NONCE_LEN,
    ensures
        decoded(token, key) == Err::<Seq<char>, ChallengeError>(ChallengeError::MalformedToken),
{
}

/// Puts the nonce in front of the sealed message.
pub fn join_parts(nonce: &[u8; 12], sealed: &[u8]) -> (data: Vec<u8>)
    ensures
        data@ == nonce@ + sealed@,
        parts(data@) == Ok::<(Seq<u8>, Seq<u8>), ChallengeError>((nonce@, sealed@)),
{
    let mut data: Vec<u8> = Vec::new();
    data.extend_from_slice(nonce.as_slice());
    data.extend_from_slice(sealed);
    assert(data@ =~= nonce@ + sealed@);
    assert(data@.subrange(0, NONCE_LEN as int) =~= nonce@);
    assert(data@.subrange(NONCE_LEN as int, data@.len() as int) =~= sealed@);
    data
}

/// Cuts a token's bytes into the nonce and the sealed message, or turns them
/// down where they are too few to hold a nonce.
pub fn split_parts(data: &[u8]) -> (result: Result<(&[u8], &[u8]), ChallengeError>)
    ensures
        match result {
            Ok((nonce, sealed)) => parts(data@) == Ok::<(Seq<u8>, Seq<u8>), ChallengeError>(
                (nonce@, sealed@),
            ) && nonce@.len() == NONCE_LEN,
            Err(e) => parts(data@) == Err::<(Seq<u8>, Seq<u8>), ChallengeError>(e),
        },
{
    if data.len() < NONCE_LEN {
        return Err(ChallengeError::MalformedToken);
    }
    Ok(data.split_at(NONCE_LEN))
}

/// Reads decrypted bytes as UTF-8 text.
pub fn plaintext_from_bytes(bytes: Vec<u8>) -> (result: Result<String, ChallengeError>)
    ensures
        text_result(result) == plaintext_of(bytes@),
{
    match String::from_utf8(bytes) {
        Ok(text) => Ok(text),
        Err(_) => Err(ChallengeError::InvalidPlaintext),
    }
}

/// Compares an attempt with the answer, character by character and with
/// regard to case.
pub fn compare_answer(answer: &String, attempt: &String) -> (result: Result<(), ChallengeError>)
    ensures
        result == compared(answer@, attempt@),
{
    if *answer == *attempt {
        Ok(())
    } else {
        Err(ChallengeError::AnswerMismatch)
    }
}

/// Whether the base64 text of `len` bytes fits in `usize`.
fn base64_fits(len: usize) -> (fits: bool)
    ensures
        fits == (base64_len(len as nat) <= usize::MAX),
{
    let begun: usize = if len % 3 == 0 {
        len / 3
    } else {
        len / 3 + 1
    };
    begun <= usize::MAX / 4
}

/// Makes the token out of a nonce and the message sealed under it.
pub fn token_from_sealed(nonce: &[u8; 12], sealed: &[u8]) -> (result: Result<
    String,
    ChallengeError,
>)
    ensures
        text_result(result) == if base64_len(NONCE_LEN as nat + sealed@.len()) <= usize::MAX {
            Ok::<Seq<char>, ChallengeError>(base64_text(nonce@ + sealed@))
        } else {
            Err::<Seq<char>, ChallengeError>(ChallengeError::EncryptionFailed)
        },
        result matches Ok(token) ==> base64_bytes(token@) == Some(nonce@ + sealed@),
{
    let data = join_parts(nonce, sealed);
    if !base64_fits(data.len()) {
        return Err(ChallengeError::EncryptionFailed);
    }
    Ok(to_base64(data.as_slice()))
}

} // verus!
