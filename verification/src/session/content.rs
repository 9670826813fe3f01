//! The views of a chat's content.

pub mod chat_history;
pub mod message_row;

pub use chat_history::ChatHistory;
pub use message_row::MessageRow;
