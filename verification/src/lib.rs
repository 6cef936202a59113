//! Core logic of an external-processing callback service: the per-stream
//! protocol state machine and the streaming base64 transcoder.
pub mod base64;
pub mod headers;
pub mod jsoncheck;
pub mod message;
pub mod service;
