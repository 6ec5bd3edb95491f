//! Issuing and checking encrypted challenge tokens.

pub mod base64_challenger;
pub mod cipher;
pub mod encoding;
pub mod error;
pub mod secret_key;
pub mod token;

pub use base64_challenger::Base64Challenger;
pub use base64_challenger::CaptchaResponse;
pub use error::ChallengeError;
pub use secret_key::SecretKey;
