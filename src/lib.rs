//! An RSA-authenticated handshake that agrees on an AES-256-GCM-SIV session
//! key, and the framing of the encrypted traffic that follows it.

pub mod bytes;
pub mod crypto;
pub mod frame;
pub mod handshake;
pub mod listener;
pub mod message;
