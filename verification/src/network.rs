//! The types that differ from one chain or one node to the next.

use vstd::prelude::*;

verus! {

/// The types that the protocols of a node exchange and that the behaviour hands on without
/// reading them.
///
/// The trait has no methods: whatever the behaviour does, it does for every choice of these types.
pub trait Network: Sized {
    /// Hash of a block.
    type Hash;

    /// Number of a block.
    type Number;

    /// Where a batch of blocks comes from.
    type BlockOrigin;

    /// A block that waits to be imported.
    type IncomingBlock;

    /// The justifications of a block.
    type Justifications;

    /// Identifier of an instance of the discovery protocol.
    type ProtocolId;

    /// Object that permits sending notifications to a peer.
    type NotificationsSink;

    /// A change of the reputation of a peer.
    type ReputationChange;

    /// Why no response to a remote's request could be sent.
    type ResponseFailure;

    /// Why a request did not succeed.
    type RequestFailure;

    /// Why the request-response protocols could not be registered.
    type RegisterError;

    /// What the configuration of a request-response protocol holds besides its name.
    type ProtocolSettings;
}

} // verus!
