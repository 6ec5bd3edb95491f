//! The ways in which issuing or checking a challenge can fail.

use vstd::prelude::*;

verus! {

/// Why a key, a token or an attempt was turned down.
///
/// Callers answer `MalformedToken` and `DecryptionFailed` alike: telling a
/// client which of them occurred would help it probe the cipher.
#[derive(Debug, Clone, Copy, PartialEq, Eq, Structural)]
pub enum ChallengeError {
    /// The key material is not exactly 32 bytes long.
    InvalidKeyLength,
    /// The token is not base64, or holds fewer bytes than a nonce.
    MalformedToken,
    /// The authentication tag does not match: the token was altered,
    /// damaged, or sealed under another key.
    DecryptionFailed,
    /// The decrypted bytes are not UTF-8 text.
    InvalidPlaintext,
    /// The token is sound, but the attempt is not the answer.
    AnswerMismatch,
    /// The cipher refused to seal the answer.
    EncryptionFailed,
}

impl ChallengeError {
    /// What went wrong, in a sentence for logs and diagnostics. Do not show
    /// it to a client: see the note on the type.
    pub open spec fn message_text(self) -> Seq<char> {
        match self {
            ChallengeError::InvalidKeyLength => "Secret must be 32 bytes in length."@,
            ChallengeError::MalformedToken => "Challenge is not base64 or is too short."@,
            ChallengeError::DecryptionFailed => "Failed to decrypt answer."@,
            ChallengeError::InvalidPlaintext => "Failed to convert answer to string."@,
            ChallengeError::AnswerMismatch => "Incorrect answer."@,
            ChallengeError::EncryptionFailed => "Failed to encrypt challenge."@,
        }
    }

    /// What went wrong, in a sentence for logs and diagnostics.
    pub fn message(&self) -> (text: &'static str)
        ensures
            text@ == self.message_text(),
    {
        match self {
            ChallengeError::InvalidKeyLength => "Secret must be 32 bytes in length.",
            ChallengeError::MalformedToken => "Challenge is not base64 or is too short.",
            ChallengeError::DecryptionFailed => "Failed to decrypt answer.",
            ChallengeError::InvalidPlaintext => "Failed to convert answer to string.",
            ChallengeError::AnswerMismatch => "Incorrect answer.",
            ChallengeError::EncryptionFailed => "Failed to encrypt challenge.",
        }
    }
}

} // verus!
