//! A moderation assistant's core: a bounded, insertion-ordered store of recent
//! chat messages that is reached through a request queue, and the steps that
//! turn a window of stored messages into a classification request and a
//! verdict into a mark on the store.

pub mod channel;
pub mod classifier;
pub mod error;
pub mod moderation;
pub mod record;
pub mod store;
pub mod text;
pub mod window;

pub use classifier::AIMessage;
pub use record::PartialMessage;
pub use store::{Database, DatabaseMessage};
