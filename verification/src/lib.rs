//! Server-side core of a transparent tunneling proxy: the handshake parser
//! and the relay engine with its two framing disciplines.

pub mod addr;
pub mod header;
pub mod stream;
