//! What the service keeps about its subscribers.

pub mod subscription;

pub use subscription::Subscription;
pub use subscription::SubscriptionStatus;
