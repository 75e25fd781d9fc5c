//! The Alpaca trading event stream.

pub mod messages;
pub mod handshake;
