//! What can go wrong on a channel. Every such failure is fatal to the channel.

use vstd::prelude::*;

verus! {

/// The transport under a channel failed to forward or to obtain a buffer.
#[derive(Clone, Copy, Debug, PartialEq, Eq, Structural)]
pub enum TransportError {
    /// The other end of the transport is gone.
    Disconnected,
    /// The socket, queue or interface reported a failure of its own.
    Failed,
}

/// Why a step on a channel did not take place.
#[derive(Clone, Copy, Debug, PartialEq, Eq, Structural)]
pub enum ChannelError {
    /// The transport failed.
    Transport(TransportError),
    /// The buffer that arrived is not a message of the type that the protocol
    /// expects at this step: the two sides no longer agree on where they are.
    Decode,
}

} // verus!
