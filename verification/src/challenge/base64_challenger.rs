//! A challenge, the token that carries its answer, and the check of an
//! attempt against such a token.

use vstd::prelude::*;
use vstd::string::*;
use vstd::utf8::*;

use crate::challenge::cipher::fresh_nonce;
use crate::challenge::cipher::open;
use crate::challenge::cipher::seal;
use crate::challenge::cipher::NONCE_LEN;
use crate::challenge::encoding::base64_bytes;
use crate::challenge::encoding::from_base64;
use crate::challenge::error::ChallengeError;
use crate::challenge::secret_key::SecretKey;
use crate::challenge::token::compare_answer;
use crate::challenge::token::compared;
use crate::challenge::token::decoded;
use crate::challenge::token::encoded;
use crate::challenge::token::plaintext_from_bytes;
use crate::challenge::token::sealable;
use crate::challenge::token::split_parts;
use crate::challenge::token::text_result;
use crate::challenge::token::token_len;
use crate::challenge::token::token_from_sealed;
use crate::challenge::token::verified;

verus! {

/// What a client receives when it asks for a challenge: the puzzle to look
/// at, and the token to send back with its attempt.
pub struct CaptchaResponse {
    /// The puzzle as a `data:` address that a page can show as an image.
    pub challenge_image: String,
    /// The token that carries the sealed answer.
    pub challenge: String,
}

/// The `data:` address of a PNG image given as base64 text.
pub open spec fn png_data_uri(base64_image: Seq<char>) -> Seq<char> {
    "data:image/png;base64,"@ + base64_image
}

impl CaptchaResponse {
    /// The response for a rendered puzzle and the token of its answer.
    pub fn new(base64_image: &str, challenge: String) -> (response: CaptchaResponse)
        ensures
            response.challenge_image@ == png_data_uri(base64_image@),
            response.challenge@ == challenge@,
    {
        let mut challenge_image = String::from_str("data:image/png;base64,");
        challenge_image.append(base64_image);
        CaptchaResponse { challenge_image, challenge }
    }
}

/// One puzzle, for the time it takes to answer one request: the rendered
/// image, the answer to it, and the key that seals the answer. Nothing of
/// it is kept once the response is built.
pub struct Base64Challenger<'a> {
    /// The rendered puzzle, as the base64 text of a PNG image.
    pub base64_image: String,
    answer: String,
    secret: &'a SecretKey,
}

impl<'a> Base64Challenger<'a> {
    /// The rendered puzzle, as text.
    pub closed spec fn image_text(&self) -> Seq<char> {
        self.base64_image@
    }

    /// The answer that solves the puzzle.
    pub closed spec fn answer_text(&self) -> Seq<char> {
        self.answer@
    }

    /// The bytes of the key that seals the answer.
    pub closed spec fn key(&self) -> Seq<u8> {
        self.secret@
    }

    /// A challenge made of a rendered puzzle and its answer, to be sealed
    /// under `secret`.
    pub fn new(secret: &'a SecretKey, base64_image: String, answer: String) -> (challenge: Self)
        ensures
            challenge.key() == secret@,
            challenge.image_text() == base64_image@,
            challenge.answer_text() == answer@,
    {
        Base64Challenger { base64_image, answer, secret }
    }

    /// The answer that solves the puzzle. Keep it from the client.
    pub fn answer(&self) -> (answer: &String)
        ensures
            answer@ == self.answer_text(),
    {
        &self.answer
    }

    /// The key that seals the answer.
    pub fn secret(&self) -> (secret: &'a SecretKey)
        ensures
            secret@ == self.key(),
    {
        self.secret
    }

    /// The token for this challenge's answer under a nonce of the caller's.
    ///
    /// A nonce must never be used twice with one key: outside of tests, call
    /// [`Base64Challenger::encrypt`], which draws a fresh one.
    pub fn encrypt_with_nonce(&self, nonce: &[u8; 12]) -> (result: Result<String, ChallengeError>)
        ensures
            text_result(result) == encoded(self.answer_text(), self.key(), nonce@),
            result matches Ok(token) ==> decoded(token@, self.key()) == Ok::<
                Seq<char>,
                ChallengeError,
            >(self.answer_text()),
            result matches Ok(token) ==> forall|attempt: Seq<char>|
                #[trigger] verified(token@, attempt, self.key()) == compared(
                    self.answer_text(),
                    attempt,
                ),
            result matches Ok(token) ==> base64_bytes(token@) matches Some(data) && data.len()
                == token_len(self.answer_text()) && data.subrange(0, NONCE_LEN as int) == nonce@,
    {
        let plaintext = self.answer.as_str().as_bytes();
        match seal(self.secret.expose(), nonce.as_slice(), plaintext) {
            Err(_) => Err(ChallengeError::EncryptionFailed),
            Ok(sealed) => {
                let result = token_from_sealed(nonce, sealed.as_slice());
                proof {
                    let data = nonce@ + sealed@;
                    assert(data.subrange(0, NONCE_LEN as int) =~= nonce@);
                    assert(data.subrange(NONCE_LEN as int, data.len() as int) =~= sealed@);
                    encode_utf8_valid_utf8(self.answer@);
                    encode_utf8_decode_utf8(self.answer@);
                }
                result
            },
        }
    }

    /// The token for this challenge's answer: the base64 text of a fresh
    /// random nonce followed by the sealed answer.
    ///
    /// It fails only where the answer is too long to be sealed. The token
    /// decodes, under the same key, to the answer, so it verifies with the
    /// answer as the attempt and with no other.
    pub fn encrypt(&self) -> (result: Result<String, ChallengeError>)
        ensures
            exists|nonce: Seq<u8>|
                nonce.len() == NONCE_LEN && text_result(result) == #[trigger] encoded(
                    self.answer_text(),
                    self.key(),
                    nonce,
                ),
            result matches Ok(token) ==> decoded(token@, self.key()) == Ok::<
                Seq<char>,
                ChallengeError,
            >(self.answer_text()),
            result matches Ok(token) ==> forall|attempt: Seq<char>|
                #[trigger] verified(token@, attempt, self.key()) == compared(
                    self.answer_text(),
                    attempt,
                ),
    {
        let nonce = fresh_nonce();
        let result = self.encrypt_with_nonce(&nonce);
        assert(nonce@.len() == NONCE_LEN);
        result
    }

    /// The response to a request for a challenge: the puzzle's image and
    /// the token of its answer, sealed under a fresh nonce.
    ///
    /// It fails only where the answer is too long to be sealed. Nothing is
    /// kept: the token alone lets the answer be checked later.
    pub fn issue(&self) -> (result: Result<CaptchaResponse, ChallengeError>)
        ensures
            match result {
                Ok(response) => {
                    &&& response.challenge_image@ == png_data_uri(self.image_text())
                    &&& exists|nonce: Seq<u8>|
                        nonce.len() == NONCE_LEN && #[trigger] encoded(
                            self.answer_text(),
                            self.key(),
                            nonce,
                        ) == Ok::<Seq<char>, ChallengeError>(response.challenge@)
                    &&& decoded(response.challenge@, self.key()) == Ok::<Seq<char>, ChallengeError>(
                        self.answer_text(),
                    )
                },
                Err(e) => {
                    &&& e == ChallengeError::EncryptionFailed
                    &&& !sealable(encode_utf8(self.answer_text()).len())
                },
            },
    {
        let nonce = fresh_nonce();
        match self.encrypt_with_nonce(&nonce) {
            Ok(token) => {
                assert(nonce@.len() == NONCE_LEN);
                Ok(CaptchaResponse::new(self.base64_image.as_str(), token))
            },
            Err(e) => Err(e),
        }
    }

    /// The answer inside a token.
    ///
    /// A token that is not base64 or holds fewer than 12 bytes is
    /// `MalformedToken`; one whose tag does not match under `secret` is
    /// `DecryptionFailed`; one whose content is not UTF-8 is
    /// `InvalidPlaintext`.
    pub fn decrypt(encoded: &str, secret: &SecretKey) -> (result: Result<String, ChallengeError>)
        ensures
            text_result(result) == decoded(encoded@, secret@),
            result matches Ok(text) ==> base64_bytes(encoded@) matches Some(data) && data.len()
                == token_len(text@),
    {
        let data = match from_base64(encoded) {
            Ok(data) => data,
            Err(_) => {
                return Err(ChallengeError::MalformedToken);
            },
        };
        let (nonce, sealed) = match split_parts(data.as_slice()) {
            Ok(pair) => pair,
            Err(e) => {
                return Err(e);
            },
        };
        match open(secret.expose(), nonce, sealed) {
            Ok(bytes) => {
                proof {
                    if valid_utf8(bytes@) {
                        decode_utf8_encode_utf8(bytes@);
                    }
                }
                plaintext_from_bytes(bytes)
            },
            Err(_) => Err(ChallengeError::DecryptionFailed),
        }
    }

    /// Accepts an attempt if, and only if, the token decodes under `secret`
    /// to exactly that text. An attempt that differs is `AnswerMismatch`; a
    /// token that does not decode fails as in [`Base64Challenger::decrypt`].
    pub fn verify(encoded: &str, answer: String, secret: &SecretKey) -> (result: Result<
        (),
        ChallengeError,
    >)
        ensures
            result == verified(encoded@, answer@, secret@),
    {
        match Self::decrypt(encoded, secret) {
            Ok(plaintext) => compare_answer(&plaintext, &answer),
            Err(e) => Err(e),
        }
    }
}

} // verus!
