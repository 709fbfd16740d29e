//! A minimal simulated NFC controller: the protocol core of a test double that
//! speaks the NFC controller interface (NCI) over a reliable byte stream.
//!
//! The crate holds no I/O. Frames are cut from and written to byte sequences in
//! memory, commands and responses are structured values, and the life of one
//! connection is a small state machine. A driver owns the socket and the packet
//! codec and calls in here for every decision.

pub mod buffer;
pub mod dispatch;
pub mod error;
pub mod frame;
pub mod packet;
pub mod session;
