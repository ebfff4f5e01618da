//! Bookkeeping for a multi-channel chat log: a registry of named, coloured
//! channels and an append-only message log whose visible window can be
//! shrunk (pruned) and grown back (restored) without losing any message.

pub mod channel;
pub mod history;
pub mod laws;
pub mod message;
pub mod presentation;

pub use channel::{Channel, ChannelId, ChannelRegistry};
pub use history::ChatHistory;
pub use message::{ChatPrune, Message};
