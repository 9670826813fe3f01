//! The state and decision logic behind the chat views of a Telegram client:
//! a chat's properties and how TDLib updates change them, the chat history
//! view with its message entry and draft handling, and the layout of a
//! message row.

pub mod session;
pub mod text;
