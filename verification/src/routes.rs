//! What the service's requests carry, and the checks made on them before
//! anything is stored.

pub mod subscriptions;

pub use subscriptions::SubscribeParams;
