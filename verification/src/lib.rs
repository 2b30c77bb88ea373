//! A small client core for chat-completion style HTTP APIs: it assembles the
//! request document, validates it, and interprets what the provider answers.
//! The network call itself is left to the caller.

pub mod client;
pub mod config;
pub mod error;
pub mod exchange;
pub mod json;
pub mod message;
pub mod request;
pub mod response;
