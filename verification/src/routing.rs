//! What each event leads to: the announcements that it adds to the queue of the behaviour, and the
//! actions that it asks for.

use vstd::prelude::*;

use crate::action::{Action, IfDisconnected, PollStep};
use crate::event::{
    BehaviourEvent, BehaviourOut, CustomMessageOutcome, DhtEvent, DiscoveryOut, IdentifyInfo,
    LightClientPoll, OutEvent, PeerInfoEvent, RequestResponsesEvent,
};
use crate::network::Network;
use crate::protocols::ProtocolNames;
use crate::role::observed_role;

verus! {

/// The largest number of addresses that are passed on of one identification.
pub const MAX_REPORTED_ADDRESSES: usize = 30;

/// What an outcome of the synchronisation and notification protocols announces.
pub open spec fn protocol_announcements<N: Network>(event: CustomMessageOutcome<N>) -> Seq<
    BehaviourOut<N>,
> {
    match event {
        CustomMessageOutcome::BlockImport(origin, blocks) => seq![
            BehaviourOut::BlockImport(origin, blocks),
        ],
        CustomMessageOutcome::JustificationImport(origin, hash, number, justifications) => seq![
            BehaviourOut::JustificationImport(origin, hash, number, justifications),
        ],
        CustomMessageOutcome::NotificationStreamOpened {
            remote,
            protocol,
            negotiated_fallback,
            roles,
            notifications_sink,
        } => seq![
            BehaviourOut::NotificationStreamOpened {
                remote,
                protocol,
                negotiated_fallback,
                notifications_sink,
                role: observed_role(roles),
            },
        ],
        CustomMessageOutcome::NotificationStreamReplaced {
            remote,
            protocol,
            notifications_sink,
        } => seq![
            BehaviourOut::NotificationStreamReplaced { remote, protocol, notifications_sink },
        ],
        CustomMessageOutcome::NotificationStreamClosed { remote, protocol } => seq![
            BehaviourOut::NotificationStreamClosed { remote, protocol },
        ],
        CustomMessageOutcome::NotificationsReceived { remote, messages } => seq![
            BehaviourOut::NotificationsReceived { remote, messages },
        ],
        CustomMessageOutcome::SyncConnected(peer_id) => seq![BehaviourOut::SyncConnected(peer_id)],
        CustomMessageOutcome::SyncDisconnected(peer_id) => seq![
            BehaviourOut::SyncDisconnected(peer_id),
        ],
        CustomMessageOutcome::BlockRequest { .. } => Seq::empty(),
        CustomMessageOutcome::StateRequest { .. } => Seq::empty(),
        CustomMessageOutcome::PeerNewBest(..) => Seq::empty(),
        CustomMessageOutcome::Nothing => Seq::empty(),
    }
}

/// What an outcome of the synchronisation and notification protocols asks for.
pub open spec fn protocol_actions<N: Network>(
    names: ProtocolNames,
    event: CustomMessageOutcome<N>,
) -> Seq<Action<N>> {
    match event {
        CustomMessageOutcome::BlockRequest { target, request: Ok(request), pending_response } =>
            seq![
            Action::SendRequest {
                target,
                protocol: names.block_request_protocol_name,
                request,
                pending_response,
                connect: IfDisconnected::ImmediateError,
            },
        ],
        CustomMessageOutcome::StateRequest { target, request: Ok(request), pending_response } =>
            seq![
            Action::SendRequest {
                target,
                protocol: names.state_request_protocol_name,
                request,
                pending_response,
                connect: IfDisconnected::ImmediateError,
            },
        ],
        CustomMessageOutcome::PeerNewBest(peer_id, number) => seq![
            Action::UpdateBestBlock(peer_id, number),
        ],
        CustomMessageOutcome::SyncConnected(peer_id) => seq![Action::InjectConnected(peer_id)],
        CustomMessageOutcome::SyncDisconnected(peer_id) => seq![
            Action::InjectDisconnected(peer_id),
        ],
        _ => Seq::empty(),
    }
}

/// What an event of the request-response protocols announces.
pub open spec fn request_responses_announcements<N: Network>(
    event: RequestResponsesEvent<N>,
) -> Seq<BehaviourOut<N>> {
    match event {
        RequestResponsesEvent::InboundRequest { peer, protocol, result } => seq![
            BehaviourOut::InboundRequest { peer, protocol, result },
        ],
        RequestResponsesEvent::RequestFinished { peer, protocol, duration, result } => seq![
            BehaviourOut::RequestFinished { peer, protocol, duration, result },
        ],
        RequestResponsesEvent::ReputationChanges { .. } => Seq::empty(),
    }
}

/// What an event of the request-response protocols asks for.
pub open spec fn request_responses_actions<N: Network>(event: RequestResponsesEvent<N>) -> Seq<
    Action<N>,
> {
    match event {
        RequestResponsesEvent::ReputationChanges { peer, changes } => changes@.map_values(
            |change: N::ReputationChange| Action::ReportPeer { peer, change },
        ),
        _ => Seq::empty(),
    }
}

/// The addresses of an identification that are passed on: all of them, or the first ones if there
/// are too many.
pub open spec fn reported_addresses(info: IdentifyInfo) -> Seq<libp2p::Multiaddr> {
    if info.listen_addrs@.len() > MAX_REPORTED_ADDRESSES {
        info.listen_addrs@.take(MAX_REPORTED_ADDRESSES as int)
    } else {
        info.listen_addrs@
    }
}

/// What an event of the identification protocol asks for: each address that is passed on becomes
/// known, and last of all the node may be connected to.
pub open spec fn peer_info_actions<N: Network>(event: PeerInfoEvent) -> Seq<Action<N>> {
    match event {
        PeerInfoEvent::Identified { peer_id, info } => reported_addresses(info).map_values(
            |addr: libp2p::Multiaddr|
                Action::AddSelfReportedAddress { peer_id, protocols: info.protocols, addr },
        ).push(Action::AddDefaultSetDiscoveredNode(peer_id)),
    }
}

/// What an event of the discovery protocol announces.
pub open spec fn discovery_announcements<N: Network>(event: DiscoveryOut<N>) -> Seq<
    BehaviourOut<N>,
> {
    match event {
        DiscoveryOut::ValueFound(results, duration) => seq![
            BehaviourOut::Dht(DhtEvent::ValueFound(results), duration),
        ],
        DiscoveryOut::ValueNotFound(key, duration) => seq![
            BehaviourOut::Dht(DhtEvent::ValueNotFound(key), duration),
        ],
        DiscoveryOut::ValuePut(key, duration) => seq![
            BehaviourOut::Dht(DhtEvent::ValuePut(key), duration),
        ],
        DiscoveryOut::ValuePutFailed(key, duration) => seq![
            BehaviourOut::Dht(DhtEvent::ValuePutFailed(key), duration),
        ],
        DiscoveryOut::RandomKademliaStarted(protocols) => protocols@.map_values(
            |protocol: N::ProtocolId| BehaviourOut::RandomKademliaStarted(protocol),
        ),
        DiscoveryOut::Discovered(_) => Seq::empty(),
        DiscoveryOut::UnroutablePeer(_) => Seq::empty(),
    }
}

/// What an event of the discovery protocol asks for.
pub open spec fn discovery_actions<N: Network>(event: DiscoveryOut<N>) -> Seq<Action<N>> {
    match event {
        DiscoveryOut::Discovered(peer_id) => seq![Action::AddDefaultSetDiscoveredNode(peer_id)],
        _ => Seq::empty(),
    }
}

/// What an event of any of the protocols announces.
pub open spec fn announcements<N: Network>(event: BehaviourEvent<N>) -> Seq<BehaviourOut<N>> {
    match event {
        BehaviourEvent::Protocol(event) => protocol_announcements(event),
        BehaviourEvent::RequestResponses(event) => request_responses_announcements(event),
        BehaviourEvent::PeerInfo(_) => Seq::empty(),
        BehaviourEvent::Discovery(event) => discovery_announcements(event),
    }
}

/// What an event of any of the protocols asks for.
pub open spec fn actions<N: Network>(names: ProtocolNames, event: BehaviourEvent<N>) -> Seq<
    Action<N>,
> {
    match event {
        BehaviourEvent::Protocol(event) => protocol_actions(names, event),
        BehaviourEvent::RequestResponses(event) => request_responses_actions(event),
        BehaviourEvent::PeerInfo(event) => peer_info_actions(event),
        BehaviourEvent::Discovery(event) => discovery_actions(event),
    }
}

/// What a poll asks for, when the queue holds `pending` and polling the light client's request
/// sender gave `light_client`.
///
/// The sender comes first. Only when it wants nothing is the oldest announcement handed out.
pub open spec fn poll_step<N: Network>(
    pending: Seq<BehaviourOut<N>>,
    light_client: LightClientPoll<N>,
) -> PollStep<N> {
    match light_client {
        LightClientPoll::Ready(
            OutEvent::SendRequest { target, request, pending_response, protocol_name },
        ) => PollStep::Perform(
            Action::SendRequest {
                target,
                protocol: protocol_name,
                request,
                pending_response,
                connect: IfDisconnected::ImmediateError,
            },
        ),
        _ => if pending.len() == 0 {
            PollStep::Pending
        } else {
            PollStep::GenerateEvent(pending.first())
        },
    }
}

/// The queue after a poll: without its oldest announcement if that was handed out, and otherwise
/// as it was.
pub open spec fn pending_after_poll<N: Network>(
    pending: Seq<BehaviourOut<N>>,
    light_client: LightClientPoll<N>,
) -> Seq<BehaviourOut<N>> {
    if poll_step(pending, light_client) is GenerateEvent {
        pending.drop_first()
    } else {
        pending
    }
}

} // verus!
