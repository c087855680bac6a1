//! Single-file transfer over a secured, multiplexed transport.
//!
//! The library holds the parts of the protocol that decide: the header
//! framing of a transfer stream, the server's body-reading state machine,
//! and the construction of the security material for both roles. The
//! network loops that drive them live outside the library.

pub mod codec;
pub mod error;
pub mod receiver;
pub mod security;
