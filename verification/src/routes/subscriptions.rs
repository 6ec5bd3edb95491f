//! A request to subscribe.

use vstd::prelude::*;

use crate::challenge::base64_challenger::Base64Challenger;
use crate::challenge::error::ChallengeError;
use crate::challenge::secret_key::SecretKey;
use crate::challenge::token::verified;

verus! {

/// What a visitor sends to subscribe: who they are, whose newsletter they
/// want, and their attempt at the puzzle with the token that came with it.
pub struct SubscribeParams {
    pub answer_attempt: String,
    pub email: String,
    pub name: String,
    pub signed_answer: String,
    pub username: String,
}

impl SubscribeParams {
    /// Whether the visitor solved the puzzle: the attempt must be exactly
    /// the answer sealed in the token that the request carries.
    pub fn check_captcha(&self, captcha_secret: &SecretKey) -> (result: Result<(), ChallengeError>)
        ensures
            result == verified(self.signed_answer@, self.answer_attempt@, captcha_secret@),
    {
        Base64Challenger::verify(
            self.signed_answer.as_str(),
            self.answer_attempt.clone(),
            captcha_secret,
        )
    }
}

} // verus!
