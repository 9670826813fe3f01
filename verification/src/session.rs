//! What a session shows: its chats and the views of their content.

pub mod chat;
pub mod content;

pub use chat::{Chat, Session};
