//! Transport-layer framing for an HCI-style wire protocol.
//!
//! The crate models the packet-type and event-filter vocabulary, the fixed
//! 14-byte binary layout of the controller event filter, the state machines
//! that assemble and drain length-prefixed frames across partial reads and
//! writes, and the command/response correlation step that installs a filter
//! before a command is transmitted.

pub mod codes;
pub mod error;
pub mod event;
pub mod filter;
pub mod opcode;
pub mod stream;
pub mod transport;
pub mod write;
