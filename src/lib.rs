//! One interface for asking a question of several large-language-model
//! providers: the conversation is assembled into each provider's request,
//! and each provider's reply is read back into an answer or a typed error.
//!
//! The library decides and computes; the caller performs the one network
//! call that each question makes.
pub mod config;
pub mod error;
pub mod messages;
pub mod number;
pub mod json;
pub mod ask_ai;
