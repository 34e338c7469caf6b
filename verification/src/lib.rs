//! A verified core for a command-line chat client against a hosted
//! large-language-model API.
//!
//! The crate owns two things: the credential lifecycle (deciding whether a
//! persisted API key can be reused or must be entered anew) and the
//! request/response protocol (framing a question as a chat-completion request
//! body and classifying the response into an answer or a typed failure).
//! All I/O — terminal, config storage, the HTTP call itself — lives outside
//! this crate and hands plain values in and out.

pub mod api;
pub mod cli;
pub mod text;
