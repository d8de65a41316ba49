//! Data model and interpretation rules for the request/response exchange of a
//! conversational voice-assistant skill.
//!
//! The `request` module holds the inbound request model together with its
//! accessors and the slot resolution extractor; the `response` module holds
//! the outbound response model and its builder.
pub mod json;
pub mod request;
pub mod response;
pub mod string_map;
pub mod text;
