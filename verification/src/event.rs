//! The events of the combined protocols, and what the behaviour announces.

use std::borrow::Cow;
use std::sync::Arc;
use std::time::Duration;

use bytes::Bytes;
use futures::channel::oneshot;
use libp2p::kad::record;
use libp2p::{Multiaddr, PeerId};
use prost::EncodeError;
use vstd::prelude::*;

use crate::network::Network;
use crate::role::{ObservedRole, Roles};

verus! {

/// Outcome of handling a message of the synchronisation and notification protocols.
pub enum CustomMessageOutcome<N: Network> {
    /// Blocks that are ready to be imported.
    BlockImport(N::BlockOrigin, Vec<N::IncomingBlock>),
    /// Justifications that are ready to be imported: who sent them, and of which block they are.
    JustificationImport(PeerId, N::Hash, N::Number, N::Justifications),
    /// Opened a substream with the given node.
    NotificationStreamOpened {
        /// Node that the substream was opened with.
        remote: PeerId,
        /// The concerned protocol.
        protocol: Cow<'static, str>,
        /// The name that was negotiated, if it is not the main name of the protocol.
        negotiated_fallback: Option<Cow<'static, str>>,
        /// Roles that the remote reports.
        roles: Roles,
        /// Object that permits sending notifications to the peer.
        notifications_sink: N::NotificationsSink,
    },
    /// The sink to use for the given peer has changed.
    NotificationStreamReplaced {
        /// The peer.
        remote: PeerId,
        /// The concerned protocol.
        protocol: Cow<'static, str>,
        /// Replacement for the previous sink.
        notifications_sink: N::NotificationsSink,
    },
    /// Closed a substream with the given node.
    NotificationStreamClosed {
        /// Node that the substream was closed with.
        remote: PeerId,
        /// The concerned protocol.
        protocol: Cow<'static, str>,
    },
    /// Messages have been received on one or more notifications protocols.
    NotificationsReceived {
        /// Node that sent the messages.
        remote: PeerId,
        /// Concerned protocol and associated message.
        messages: Vec<(Cow<'static, str>, Bytes)>,
    },
    /// A new block request must be emitted.
    BlockRequest {
        /// Peer to ask.
        target: PeerId,
        /// The request as protocol buffers put it, or why it has no encoding.
        request: Result<Vec<u8>, EncodeError>,
        /// Where the response goes.
        pending_response: oneshot::Sender<Result<Vec<u8>, N::RequestFailure>>,
    },
    /// A new state request must be emitted.
    StateRequest {
        /// Peer to ask.
        target: PeerId,
        /// The request as protocol buffers put it, or why it has no encoding.
        request: Result<Vec<u8>, EncodeError>,
        /// Where the response goes.
        pending_response: oneshot::Sender<Result<Vec<u8>, N::RequestFailure>>,
    },
    /// Peer has reported a new head of chain.
    PeerNewBest(PeerId, N::Number),
    /// Now connected to a new peer for syncing purposes.
    SyncConnected(PeerId),
    /// No longer connected to a peer for syncing purposes.
    SyncDisconnected(PeerId),
    /// Nothing came of the message.
    Nothing,
}

/// Event of the request-response protocols.
pub enum RequestResponsesEvent<N: Network> {
    /// A remote sent a request and either we have successfully answered it or an error happened.
    InboundRequest {
        /// Peer which has emitted the request.
        peer: PeerId,
        /// Name of the protocol in question.
        protocol: Cow<'static, str>,
        /// Time until the response was sent, or the error that happened.
        result: Result<Duration, N::ResponseFailure>,
    },
    /// A request that we sent has succeeded or failed.
    RequestFinished {
        /// Peer that we sent a request to.
        peer: PeerId,
        /// Name of the protocol in question.
        protocol: Cow<'static, str>,
        /// Duration the request took.
        duration: Duration,
        /// Result of the request.
        result: Result<(), N::RequestFailure>,
    },
    /// A request protocol handler issued reputation changes for the given peer.
    ReputationChanges {
        /// Peer whose reputation changes.
        peer: PeerId,
        /// The changes, in the order in which they apply.
        changes: Vec<N::ReputationChange>,
    },
}

/// What a node tells when it identifies itself, as far as the behaviour uses it.
pub struct IdentifyInfo {
    /// Addresses that the node says it listens on.
    pub listen_addrs: Vec<Multiaddr>,
    /// Protocols that the node says it supports; shared by what is passed on of each address.
    pub protocols: Arc<Vec<String>>,
}

/// Event of the identification protocol.
pub enum PeerInfoEvent {
    /// We have obtained identity information from a peer, including the addresses it is listening
    /// on.
    Identified {
        /// Id of the peer that has been identified.
        peer_id: PeerId,
        /// Information about the peer.
        info: IdentifyInfo,
    },
}

/// Event of the discovery protocol.
pub enum DiscoveryOut<N: Network> {
    /// The peer has been discovered.
    Discovered(PeerId),
    /// A peer connected to this node for whom no listen address is known.
    ///
    /// In order for the peer to be added to the routing table, a listen address must be reported;
    /// the identification protocol does so.
    UnroutablePeer(PeerId),
    /// The discovery process yielded results, with how long the request took.
    ValueFound(Vec<(record::Key, Vec<u8>)>, Duration),
    /// The record requested was not found, with how long the request took.
    ValueNotFound(record::Key, Duration),
    /// The record was successfully put, with how long the request took.
    ValuePut(record::Key, Duration),
    /// Putting the record failed, with how long the request took.
    ValuePutFailed(record::Key, Duration),
    /// Started random queries, one per instance of the protocol.
    RandomKademliaStarted(Vec<N::ProtocolId>),
}

/// Event of any of the combined protocols.
pub enum BehaviourEvent<N: Network> {
    /// Of the synchronisation and notification protocols.
    Protocol(CustomMessageOutcome<N>),
    /// Of the request-response protocols.
    RequestResponses(RequestResponsesEvent<N>),
    /// Of the identification protocol.
    PeerInfo(PeerInfoEvent),
    /// Of the discovery protocol.
    Discovery(DiscoveryOut<N>),
}

/// What the light client's request sender wants done.
pub enum OutEvent<N: Network> {
    /// A request is to be sent.
    SendRequest {
        /// Peer to ask.
        target: PeerId,
        /// The encoded request.
        request: Vec<u8>,
        /// Where the response goes.
        pending_response: oneshot::Sender<Result<Vec<u8>, N::RequestFailure>>,
        /// Protocol to ask over.
        protocol_name: String,
    },
}

/// What polling the light client's request sender gave.
pub enum LightClientPoll<N: Network> {
    /// The sender wants something done.
    Ready(OutEvent<N>),
    /// The sender will never want anything again.
    Ended,
    /// The sender wants nothing at present.
    Pending,
}

/// Events generated by the distributed hash table as a response to `get_value` and `put_value`
/// requests.
pub enum DhtEvent {
    /// The value was found.
    ValueFound(Vec<(record::Key, Vec<u8>)>),
    /// The requested record has not been found.
    ValueNotFound(record::Key),
    /// The record has been successfully inserted.
    ValuePut(record::Key),
    /// An error has occurred while putting a record.
    ValuePutFailed(record::Key),
}

/// Event generated by the behaviour.
pub enum BehaviourOut<N: Network> {
    /// Blocks that are ready to be imported.
    BlockImport(N::BlockOrigin, Vec<N::IncomingBlock>),
    /// Justifications that are ready to be imported.
    JustificationImport(PeerId, N::Hash, N::Number, N::Justifications),
    /// Started a random iterative Kademlia discovery query.
    RandomKademliaStarted(N::ProtocolId),
    /// We have received a request from a peer and answered it.
    ///
    /// This event is generated for statistics purposes.
    InboundRequest {
        /// Peer which sent us a request.
        peer: PeerId,
        /// Protocol name of the request.
        protocol: Cow<'static, str>,
        /// If `Ok`, contains the time elapsed between when we received the request and when we
        /// sent back the response. If `Err`, the error that happened.
        result: Result<Duration, N::ResponseFailure>,
    },
    /// A request has succeeded or failed.
    ///
    /// This event is generated for statistics purposes.
    RequestFinished {
        /// Peer that we send a request to.
        peer: PeerId,
        /// Name of the protocol in question.
        protocol: Cow<'static, str>,
        /// Duration the request took.
        duration: Duration,
        /// Result of the request.
        result: Result<(), N::RequestFailure>,
    },
    /// Opened a substream with the given node with the given notifications protocol.
    ///
    /// The protocol is always one of the notification protocols that have been registered.
    NotificationStreamOpened {
        /// Node we opened the substream with.
        remote: PeerId,
        /// The concerned protocol. Each protocol uses a different substream.
        protocol: Cow<'static, str>,
        /// If the negotiation didn't use the main name of the protocol, then this field contains
        /// which name has actually been used.
        negotiated_fallback: Option<Cow<'static, str>>,
        /// Object that permits sending notifications to the peer.
        notifications_sink: N::NotificationsSink,
        /// Role of the remote.
        role: ObservedRole,
    },
    /// The sink used to send notifications with the given peer must be replaced with a new one.
    ///
    /// This event is typically emitted when a transport-level connection is closed and we fall
    /// back to a secondary connection.
    NotificationStreamReplaced {
        /// Id of the peer we are connected to.
        remote: PeerId,
        /// The concerned protocol. Each protocol uses a different substream.
        protocol: Cow<'static, str>,
        /// Replacement for the previous sink.
        notifications_sink: N::NotificationsSink,
    },
    /// Closed a substream with the given node. Always matches a corresponding previous
    /// `NotificationStreamOpened` message.
    NotificationStreamClosed {
        /// Node we closed the substream with.
        remote: PeerId,
        /// The concerned protocol. Each protocol uses a different substream.
        protocol: Cow<'static, str>,
    },
    /// Received one or more messages from the given node using the given protocol.
    NotificationsReceived {
        /// Node we received the message from.
        remote: PeerId,
        /// Concerned protocol and associated message.
        messages: Vec<(Cow<'static, str>, Bytes)>,
    },
    /// Now connected to a new peer for syncing purposes.
    SyncConnected(PeerId),
    /// No longer connected to a peer for syncing purposes.
    SyncDisconnected(PeerId),
    /// Events generated by the distributed hash table as a response to `get_value` or `put_value`
    /// requests as well as the request duration.
    Dht(DhtEvent, Duration),
}

} // verus!
