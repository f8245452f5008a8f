//! Verified core of `llmd`, a host for local LiteRT-LM models behind an
//! OpenAI-compatible API.
//!
//! The modules hold the decisions the host makes: the shared API types, the
//! model store's naming rules, how a chat turns into a native conversation,
//! the OpenAI wire bodies, the Android bridge bookkeeping, the host's health
//! report and the Android end-to-end runner's planning. Input and output stay
//! with the callers, which hand plain values in and act on what comes back.
pub mod text;
pub mod api;
pub mod store;
pub mod import;
pub mod conversation;
pub mod openai;
pub mod android;
pub mod host;
pub mod device;
