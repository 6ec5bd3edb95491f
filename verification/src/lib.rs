//! Stateless captcha challenges for a newsletter service.
//!
//! The answer to a visual puzzle travels with the client inside an
//! authenticated, encrypted token, so that the server can check an attempt
//! without having stored anything about the challenge.

pub mod challenge;
pub mod models;
pub mod routes;
