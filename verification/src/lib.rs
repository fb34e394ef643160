//! Client-side core of a streaming chat session with a local inference
//! server: request construction, newline-delimited JSON framing, record
//! decoding and the emission state machine.

pub mod conf;
pub mod error;
pub mod fileop;
pub mod framing;
pub mod json;
pub mod llmop;
pub mod record;
pub mod session;
pub mod text;
