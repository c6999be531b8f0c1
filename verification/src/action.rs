//! The calls on the combined protocols that the behaviour asks for.

use std::sync::Arc;

use futures::channel::oneshot;
use libp2p::kad::record;
use libp2p::{Multiaddr, PeerId};
use vstd::prelude::*;

use crate::event::BehaviourOut;
use crate::network::Network;

verus! {

/// What to do when the recipient of a request is not connected.
#[derive(Clone, Copy, Debug, PartialEq, Eq, Structural)]
pub enum IfDisconnected {
    /// Try to connect to the peer.
    TryConnect,
    /// Just fail if the destination is not yet connected.
    ImmediateError,
}

/// One call on one of the combined protocols.
///
/// Whoever holds the protocols performs the actions that it is given, in order.
pub enum Action<N: Network> {
    /// Send a request over the request-response protocols.
    SendRequest {
        /// Peer to ask.
        target: PeerId,
        /// Name of the protocol to ask over.
        protocol: String,
        /// The encoded request.
        request: Vec<u8>,
        /// Where the response goes.
        pending_response: oneshot::Sender<Result<Vec<u8>, N::RequestFailure>>,
        /// What to do if the peer is not connected.
        connect: IfDisconnected,
    },
    /// Tell the synchronisation protocol that the reputation of the peer changes.
    ReportPeer {
        /// Peer whose reputation changes.
        peer: PeerId,
        /// By how much, and why.
        change: N::ReputationChange,
    },
    /// Tell the synchronisation protocol about a node that it may connect to.
    AddDefaultSetDiscoveredNode(PeerId),
    /// Tell the discovery protocol an address that a node reports of itself.
    AddSelfReportedAddress {
        /// The node.
        peer_id: PeerId,
        /// The protocols that the node says it supports.
        protocols: Arc<Vec<String>>,
        /// The address.
        addr: Multiaddr,
    },
    /// Give the discovery protocol a hard-coded address of a peer, that never expires.
    AddKnownAddress {
        /// The peer.
        peer_id: PeerId,
        /// The address.
        addr: Multiaddr,
    },
    /// Have the discovery protocol look up a record.
    GetValue(record::Key),
    /// Have the discovery protocol put a record.
    PutValue(record::Key, Vec<u8>),
    /// Tell the light client's request sender the best block of a peer.
    UpdateBestBlock(PeerId, N::Number),
    /// Tell the light client's request sender that a peer has connected.
    InjectConnected(PeerId),
    /// Tell the light client's request sender that a peer has disconnected.
    InjectDisconnected(PeerId),
}

/// What a poll of the behaviour asks for.
pub enum PollStep<N: Network> {
    /// Perform the action, then poll again.
    Perform(Action<N>),
    /// Hand the event out.
    GenerateEvent(BehaviourOut<N>),
    /// There is nothing to do at present.
    Pending,
}

} // verus!
