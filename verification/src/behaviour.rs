//! The behaviour that combines the protocols of a node.

use std::collections::VecDeque;

use futures::channel::oneshot;
use libp2p::kad::record;
use libp2p::{Multiaddr, PeerId};
use vstd::prelude::*;

use crate::action::{Action, IfDisconnected, PollStep};
use crate::event::{
    BehaviourEvent, BehaviourOut, CustomMessageOutcome, DhtEvent, DiscoveryOut, LightClientPoll,
    OutEvent, PeerInfoEvent, RequestResponsesEvent,
};
use crate::network::Network;
use crate::protocols::{ProtocolConfig, ProtocolNames};
use crate::role::reported_roles_to_observed_role;
use crate::routing::MAX_REPORTED_ADDRESSES;

verus! {

/// General behaviour of the network. Combines all protocols together.
pub struct Behaviour<N: Network> {
    /// Queue of events to produce for the outside.
    events: VecDeque<BehaviourOut<N>>,
    /// Names of the protocols over which requests of the behaviour's own go.
    names: ProtocolNames,
}

impl<N: Network> Behaviour<N> {
    /// The announcements that have not been handed out yet, oldest first.
    pub closed spec fn pending(&self) -> Seq<BehaviourOut<N>> {
        self.events@
    }

    /// The names of the protocols over which the behaviour sends requests of its own.
    pub closed spec fn names(&self) -> ProtocolNames {
        self.names
    }

    /// Builds a new `Behaviour`.
    ///
    /// `register` is given all the request-response protocols of the node, once. What it makes of
    /// them comes back beside the behaviour; if it fails there is no behaviour, only its error.
    pub fn new<R, F: FnOnce(Vec<ProtocolConfig<N>>) -> Result<R, N::RegisterError>>(
        block_request_protocol_config: ProtocolConfig<N>,
        state_request_protocol_config: ProtocolConfig<N>,
        light_client_request_protocol_config: ProtocolConfig<N>,
        request_response_protocols: Vec<ProtocolConfig<N>>,
        register: F,
    ) -> (res: Result<(Self, R), N::RegisterError>)
        requires
            forall|configs: Vec<ProtocolConfig<N>>|
                configs@ == crate::protocols::all_protocols(
                    block_request_protocol_config,
                    state_request_protocol_config,
                    light_client_request_protocol_config,
                    request_response_protocols@,
                ) ==> #[trigger] call_requires(register, (configs,)),
        ensures
            exists|configs: Vec<ProtocolConfig<N>>, outcome: Result<R, N::RegisterError>|
                configs@ == crate::protocols::all_protocols(
                    block_request_protocol_config,
                    state_request_protocol_config,
                    light_client_request_protocol_config,
                    request_response_protocols@,
                ) && #[trigger] call_ensures(register, (configs,), outcome) && match outcome {
                    Ok(registered) => res matches Ok((behaviour, request_responses))
                        && request_responses == registered,
                    Err(error) => res == Err::<(Self, R), N::RegisterError>(error),
                },
            res matches Ok((behaviour, _)) ==> {
                &&& behaviour.pending() == Seq::<BehaviourOut<N>>::empty()
                &&& behaviour.names().block_request_protocol_name@
                    == block_request_protocol_config.name@
                &&& behaviour.names().state_request_protocol_name@
                    == state_request_protocol_config.name@
            },
    {
        let names = ProtocolNames::new(
            &block_request_protocol_config,
            &state_request_protocol_config,
        );
        let mut configs = request_response_protocols;
        configs.push(block_request_protocol_config);
        configs.push(state_request_protocol_config);
        configs.push(light_client_request_protocol_config);
        assert(configs@ =~= crate::protocols::all_protocols(
            block_request_protocol_config,
            state_request_protocol_config,
            light_client_request_protocol_config,
            request_response_protocols@,
        ));
        match register(configs) {
            Ok(request_responses) => Ok(
                (Behaviour { events: VecDeque::new(), names }, request_responses),
            ),
            Err(error) => Err(error),
        }
    }

    /// Adds a hard-coded address for the given peer, that never expires.
    pub fn add_known_address(&mut self, peer_id: PeerId, addr: Multiaddr) -> (res: Action<N>)
        ensures
            res == (Action::<N>::AddKnownAddress { peer_id, addr }),
            *final(self) == *old(self),
    {
        Action::AddKnownAddress { peer_id, addr }
    }

    /// Initiates sending a request.
    pub fn send_request(
        &mut self,
        target: &PeerId,
        protocol: &str,
        request: Vec<u8>,
        pending_response: oneshot::Sender<Result<Vec<u8>, N::RequestFailure>>,
        connect: IfDisconnected,
    ) -> (res: Action<N>)
        ensures
            res matches Action::SendRequest {
                target: peer,
                protocol: protocol_name,
                request: bytes,
                pending_response: sender,
                connect: if_disconnected,
            } && peer == *target && protocol_name@ == protocol@ && bytes == request && sender
                == pending_response && if_disconnected == connect,
            *final(self) == *old(self),
    {
        Action::SendRequest {
            target: *target,
            protocol: protocol.to_owned(),
            request,
            pending_response,
            connect,
        }
    }

    /// Start querying a record from the DHT. Will later produce either a `ValueFound` or a
    /// `ValueNotFound` event.
    pub fn get_value(&mut self, key: &record::Key) -> (res: Action<N>)
        ensures
            res == Action::<N>::GetValue(*key),
            *final(self) == *old(self),
    {
        Action::GetValue(key.clone())
    }

    /// Starts putting a record into DHT. Will later produce either a `ValuePut` or a
    /// `ValuePutFailed` event.
    pub fn put_value(&mut self, key: record::Key, value: Vec<u8>) -> (res: Action<N>)
        ensures
            res == Action::<N>::PutValue(key, value),
            *final(self) == *old(self),
    {
        Action::PutValue(key, value)
    }

    /// Takes an event of any of the combined protocols. Returns the calls that it asks for, in
    /// the order in which they are to be made.
    pub fn inject_event(&mut self, event: BehaviourEvent<N>) -> (res: Vec<Action<N>>)
        ensures
            res@ == crate::routing::actions(old(self).names(), event),
            final(self).pending() == old(self).pending() + crate::routing::announcements(event),
            final(self).names() == old(self).names(),
    {
        match event {
            BehaviourEvent::Protocol(event) => self.inject_protocol_event(event),
            BehaviourEvent::RequestResponses(event) => self.inject_request_responses_event(event),
            BehaviourEvent::PeerInfo(event) => self.inject_peer_info_event(event),
            BehaviourEvent::Discovery(event) => self.inject_discovery_event(event),
        }
    }

    /// Takes an outcome of the synchronisation and notification protocols.
    ///
    /// A block or state request that could not be encoded is dropped.
    pub fn inject_protocol_event(&mut self, event: CustomMessageOutcome<N>) -> (res: Vec<Action<N>>)
        ensures
            res@ == crate::routing::protocol_actions(old(self).names(), event),
            final(self).pending() == old(self).pending() + crate::routing::protocol_announcements(
                event,
            ),
            final(self).names() == old(self).names(),
    {
        let mut actions = Vec::new();
        match event {
            CustomMessageOutcome::BlockImport(origin, blocks) => {
                self.events.push_back(BehaviourOut::BlockImport(origin, blocks))
            },
            CustomMessageOutcome::JustificationImport(origin, hash, number, justifications) => {
                self.events.push_back(
                    BehaviourOut::JustificationImport(origin, hash, number, justifications),
                )
            },
            CustomMessageOutcome::BlockRequest { target, request, pending_response } => {
                if let Ok(request) = request {
                    actions.push(
                        Action::SendRequest {
                            target,
                            protocol: self.names.block_request_protocol_name.clone(),
                            request,
                            pending_response,
                            connect: IfDisconnected::ImmediateError,
                        },
                    );
                }
            },
            CustomMessageOutcome::StateRequest { target, request, pending_response } => {
                if let Ok(request) = request {
                    actions.push(
                        Action::SendRequest {
                            target,
                            protocol: self.names.state_request_protocol_name.clone(),
                            request,
                            pending_response,
                            connect: IfDisconnected::ImmediateError,
                        },
                    );
                }
            },
            CustomMessageOutcome::NotificationStreamOpened {
                remote,
                protocol,
                negotiated_fallback,
                roles,
                notifications_sink,
            } => {
                self.events.push_back(
                    BehaviourOut::NotificationStreamOpened {
                        remote,
                        protocol,
                        negotiated_fallback,
                        role: reported_roles_to_observed_role(roles),
                        notifications_sink,
                    },
                );
            },
            CustomMessageOutcome::NotificationStreamReplaced {
                remote,
                protocol,
                notifications_sink,
            } => {
                self.events.push_back(
                    BehaviourOut::NotificationStreamReplaced {
                        remote,
                        protocol,
                        notifications_sink,
                    },
                )
            },
            CustomMessageOutcome::NotificationStreamClosed { remote, protocol } => {
                self.events.push_back(BehaviourOut::NotificationStreamClosed { remote, protocol })
            },
            CustomMessageOutcome::NotificationsReceived { remote, messages } => {
                self.events.push_back(BehaviourOut::NotificationsReceived { remote, messages })
            },
            CustomMessageOutcome::PeerNewBest(peer_id, number) => {
                actions.push(Action::UpdateBestBlock(peer_id, number))
            },
            CustomMessageOutcome::SyncConnected(peer_id) => {
                actions.push(Action::InjectConnected(peer_id));
                self.events.push_back(BehaviourOut::SyncConnected(peer_id))
            },
            CustomMessageOutcome::SyncDisconnected(peer_id) => {
                actions.push(Action::InjectDisconnected(peer_id));
                self.events.push_back(BehaviourOut::SyncDisconnected(peer_id))
            },
            CustomMessageOutcome::Nothing => {},
        }
        actions
    }

    /// Takes an event of the request-response protocols.
    pub fn inject_request_responses_event(&mut self, event: RequestResponsesEvent<N>) -> (res: Vec<
        Action<N>,
    >)
        ensures
            res@ == crate::routing::request_responses_actions(event),
            final(self).pending() == old(self).pending()
                + crate::routing::request_responses_announcements(event),
            final(self).names() == old(self).names(),
    {
        let mut actions = Vec::new();
        match event {
            RequestResponsesEvent::InboundRequest { peer, protocol, result } => {
                self.events.push_back(BehaviourOut::InboundRequest { peer, protocol, result });
            },
            RequestResponsesEvent::RequestFinished { peer, protocol, duration, result } => {
                self.events.push_back(
                    BehaviourOut::RequestFinished { peer, protocol, duration, result },
                );
            },
            RequestResponsesEvent::ReputationChanges { peer, changes } => {
                for change in iter: changes
                    invariant
                        actions@ == iter.seq().take(iter.index() as int).map_values(
                            |change: N::ReputationChange| Action::<N>::ReportPeer { peer, change },
                        ),
                {
                    actions.push(Action::ReportPeer { peer, change });
                }
            },
        }
        actions
    }

    /// Takes an event of the identification protocol.
    pub fn inject_peer_info_event(&mut self, event: PeerInfoEvent) -> (res: Vec<Action<N>>)
        ensures
            res@ == crate::routing::peer_info_actions::<N>(event),
            *final(self) == *old(self),
    {
        let mut actions = Vec::new();
        let PeerInfoEvent::Identified { peer_id, info } = event;
        let protocols = info.protocols;
        let mut listen_addrs = info.listen_addrs;
        if listen_addrs.len() > MAX_REPORTED_ADDRESSES {
            listen_addrs.truncate(MAX_REPORTED_ADDRESSES);
        }
        for addr in iter: listen_addrs
            invariant
                actions@ == iter.seq().take(iter.index() as int).map_values(
                    |addr: Multiaddr|
                        Action::<N>::AddSelfReportedAddress { peer_id, protocols, addr },
                ),
        {
            actions.push(
                Action::AddSelfReportedAddress { peer_id, protocols: protocols.clone(), addr },
            );
        }
        actions.push(Action::AddDefaultSetDiscoveredNode(peer_id));
        actions
    }

    /// Takes an event of the discovery protocol.
    pub fn inject_discovery_event(&mut self, event: DiscoveryOut<N>) -> (res: Vec<Action<N>>)
        ensures
            res@ == crate::routing::discovery_actions(event),
            final(self).pending() == old(self).pending() + crate::routing::discovery_announcements(
                event,
            ),
            final(self).names() == old(self).names(),
    {
        let mut actions = Vec::new();
        match event {
            DiscoveryOut::UnroutablePeer(_peer_id) => {
                // Obtaining and reporting listen addresses for unroutable peers is what the
                // identification protocol does, see `inject_peer_info_event`.
            },
            DiscoveryOut::Discovered(peer_id) => {
                actions.push(Action::AddDefaultSetDiscoveredNode(peer_id));
            },
            DiscoveryOut::ValueFound(results, duration) => {
                self.events.push_back(BehaviourOut::Dht(DhtEvent::ValueFound(results), duration));
            },
            DiscoveryOut::ValueNotFound(key, duration) => {
                self.events.push_back(BehaviourOut::Dht(DhtEvent::ValueNotFound(key), duration));
            },
            DiscoveryOut::ValuePut(key, duration) => {
                self.events.push_back(BehaviourOut::Dht(DhtEvent::ValuePut(key), duration));
            },
            DiscoveryOut::ValuePutFailed(key, duration) => {
                self.events.push_back(BehaviourOut::Dht(DhtEvent::ValuePutFailed(key), duration));
            },
            DiscoveryOut::RandomKademliaStarted(protocols) => {
                for protocol in iter: protocols
                    invariant
                        self.pending() == old(self).pending() + iter.seq().take(
                            iter.index() as int,
                        ).map_values(
                            |protocol: N::ProtocolId|
                                BehaviourOut::<N>::RandomKademliaStarted(protocol),
                        ),
                        self.names() == old(self).names(),
                {
                    self.events.push_back(BehaviourOut::RandomKademliaStarted(protocol));
                }
            },
        }
        actions
    }

    /// Takes what polling the light client's request sender gave, and says what to do next.
    ///
    /// As long as the sender wants requests sent, that is what comes back, one request at a time.
    /// After that the oldest announcement is handed out, if there is one.
    pub fn poll(&mut self, light_client: LightClientPoll<N>) -> (res: PollStep<N>)
        ensures
            res == crate::routing::poll_step(old(self).pending(), light_client),
            final(self).pending() == crate::routing::pending_after_poll(
                old(self).pending(),
                light_client,
            ),
            final(self).names() == old(self).names(),
    {
        if let LightClientPoll::Ready(event) = light_client {
            match event {
                OutEvent::SendRequest { target, request, pending_response, protocol_name } => {
                    return PollStep::Perform(
                        Action::SendRequest {
                            target,
                            protocol: protocol_name,
                            request,
                            pending_response,
                            connect: IfDisconnected::ImmediateError,
                        },
                    );
                },
            }
        }
        if let Some(event) = self.events.pop_front() {
            return PollStep::GenerateEvent(event);
        }
        PollStep::Pending
    }
}

} // verus!
