//! Streaming control protocol, adaptive frame filter and consumer frame buffer
//! of a live video feed, with machine-checked contracts.

pub mod config;
pub mod dispatch;
pub mod error;
pub mod framing;
pub mod network;
pub mod player;
pub mod session;
pub mod source;
pub mod text;
pub mod varint;
pub mod video;
pub mod wire;
