//! What the catalog client keeps and decides on its own.

pub mod display;
pub mod links;
pub mod subscriptions;

pub use subscriptions::SubscriptionManager;
