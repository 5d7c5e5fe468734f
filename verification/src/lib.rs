//! Length-prefixed framing and an AES-CBC encryption envelope for
//! point-to-point byte-stream messaging over a reliable transport.
//!
//! The crate covers the wire logic only: how a message becomes bytes on the
//! wire and back, including key derivation from a passphrase and the
//! interaction between padding, block-cipher mode and initialization vectors.
//! Establishing the underlying connection and performing the raw reads and
//! writes is left to the caller.

pub mod codec;
pub mod envelope;
pub mod keys;
pub mod session;
