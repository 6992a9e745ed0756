//! Session types for a TCP handshake.
//!
//! A protocol says which messages two or more participants exchange, and in
//! which order. Here it is a type: a channel at a protocol state offers the step
//! of that state and no other, and gives itself up with every step, so that it
//! cannot be used twice. On top of that stands a small TCP server side: the
//! passive open, the three-way handshake and the close, with a real control
//! block and real segments.
//!
//! - [`protocol`]: protocols as data, their duals, and the laws of duality.
//! - [`session`]: protocol states as types.
//! - [`message`], [`error`]: messages with their codec, and what can go wrong.
//! - [`endpoint`]: the two capabilities of a transport.
//! - [`channel`]: the linear channel between two participants.
//! - [`multiparty`], [`choices`]: channels between named roles, and branching.
//! - [`seq_number`], [`segment`], [`codec`], [`tcp`]: sequence numbers,
//!   segments, the packet codec, and the connection state machine.
//! - [`nic`], [`proto`]: segments and frames of a network interface.

pub mod channel;
pub mod choices;
pub mod codec;
pub mod endpoint;
pub mod error;
pub mod message;
pub mod multiparty;
pub mod nic;
pub mod proto;
pub mod protocol;
pub mod segment;
pub mod seq_number;
pub mod session;
pub mod tcp;
