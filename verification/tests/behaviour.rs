use std::borrow::Cow;
use std::sync::Arc;
use std::time::Duration;

use bytes::Bytes;
use futures::channel::oneshot;
use libp2p::kad::record;
use libp2p::{Multiaddr, PeerId};
use network_behaviour::action::{Action, IfDisconnected, PollStep};
use network_behaviour::behaviour::Behaviour;
use network_behaviour::event::{
    BehaviourEvent, BehaviourOut, CustomMessageOutcome, DhtEvent, DiscoveryOut, IdentifyInfo,
    LightClientPoll, OutEvent, PeerInfoEvent, RequestResponsesEvent,
};
use network_behaviour::network::Network;
use network_behaviour::protocols::{ProtocolConfig, ProtocolNames};
use network_behaviour::role::{reported_roles_to_observed_role, ObservedRole, Roles};
use network_behaviour::routing::MAX_REPORTED_ADDRESSES;
use prost::{EncodeError, Message};

struct Net;

impl Network for Net {
    type Hash = [u8; 4];
    type Number = u64;
    type BlockOrigin = &'static str;
    type IncomingBlock = u32;
    type Justifications = Vec<u8>;
    type ProtocolId = &'static str;
    type NotificationsSink = u16;
    type ReputationChange = i32;
    type ResponseFailure = &'static str;
    type RequestFailure = &'static str;
    type RegisterError = String;
    type ProtocolSettings = u8;
}

fn config(name: &'static str, settings: u8) -> ProtocolConfig<Net> {
    ProtocolConfig { name: Cow::Borrowed(name), settings }
}

fn behaviour() -> Behaviour<Net> {
    let built = Behaviour::<Net>::new(
        config("/sync/2", 1),
        config("/state/1", 2),
        config("/light/2", 3),
        Vec::new(),
        |_configs: Vec<ProtocolConfig<Net>>| Ok::<(), String>(()),
    );
    match built {
        Ok((behaviour, ())) => behaviour,
        Err(error) => panic!("{}", error),
    }
}

fn next_event(behaviour: &mut Behaviour<Net>) -> BehaviourOut<Net> {
    match behaviour.poll(LightClientPoll::Pending) {
        PollStep::GenerateEvent(event) => event,
        PollStep::Perform(_) => panic!("an action without a light client request"),
        PollStep::Pending => panic!("no event is pending"),
    }
}

fn assert_nothing_pending(behaviour: &mut Behaviour<Net>) {
    assert!(matches!(behaviour.poll(LightClientPoll::Pending), PollStep::Pending));
}

fn protocol(event: CustomMessageOutcome<Net>) -> BehaviourEvent<Net> {
    BehaviourEvent::Protocol(event)
}

fn discovery(event: DiscoveryOut<Net>) -> BehaviourEvent<Net> {
    BehaviourEvent::Discovery(event)
}

fn address(port: usize) -> Multiaddr {
    format!("/ip4/127.0.0.1/tcp/{}", port).parse().unwrap()
}

fn identified(peer_id: PeerId, count: usize) -> BehaviourEvent<Net> {
    BehaviourEvent::PeerInfo(PeerInfoEvent::Identified {
        peer_id,
        info: IdentifyInfo {
            listen_addrs: (0..count).map(|i| address(1000 + i)).collect(),
            protocols: Arc::new(vec!["/kad".to_string(), "/ping".to_string()]),
        },
    })
}

/// Holds `actions` to what `count` reported addresses of `peer_id` lead to.
fn assert_identified(actions: Vec<Action<Net>>, peer_id: PeerId, count: usize) {
    assert_eq!(actions.len(), count + 1);
    for (i, action) in actions.into_iter().enumerate() {
        match action {
            Action::AddSelfReportedAddress { peer_id: peer, protocols, addr } => {
                assert!(i < count);
                assert_eq!(peer, peer_id);
                assert_eq!(*protocols, vec!["/kad".to_string(), "/ping".to_string()]);
                assert_eq!(addr, address(1000 + i));
            }
            Action::AddDefaultSetDiscoveredNode(peer) => {
                assert_eq!(i, count);
                assert_eq!(peer, peer_id);
            }
            _ => panic!("another action"),
        }
    }
}

fn encode_error() -> EncodeError {
    let mut buffer = [0u8; 1];
    "too long".to_string().encode(&mut &mut buffer[..]).unwrap_err()
}

fn only(mut actions: Vec<Action<Net>>) -> Action<Net> {
    assert_eq!(actions.len(), 1);
    actions.pop().unwrap()
}

#[test]
fn roles_are_observed_as_the_strongest_of_them() {
    let observed =
        |authority, full| reported_roles_to_observed_role(Roles { authority, full });
    assert_eq!(observed(true, true), ObservedRole::Authority);
    assert_eq!(observed(true, false), ObservedRole::Authority);
    assert_eq!(observed(false, true), ObservedRole::Full);
    assert_eq!(observed(false, false), ObservedRole::Light);
    assert!(Roles { authority: true, full: false }.is_authority());
    assert!(!Roles { authority: true, full: false }.is_full());
}

#[test]
fn names_come_from_borrowed_and_from_owned_configurations() {
    let owned: ProtocolConfig<Net> =
        ProtocolConfig { name: Cow::Owned("/state/7".to_string()), settings: 0 };
    let names = ProtocolNames::new(&config("/sync/2", 1), &owned);
    assert_eq!(names.block_request_protocol_name, "/sync/2");
    assert_eq!(names.state_request_protocol_name, "/state/7");
}

#[test]
fn new_registers_the_given_protocols_and_then_its_own() {
    let built = Behaviour::<Net>::new(
        config("/sync/2", 10),
        config("/state/1", 11),
        config("/light/2", 12),
        vec![config("/a", 1), config("/b", 2)],
        |configs: Vec<ProtocolConfig<Net>>| {
            Ok::<Vec<(String, u8)>, String>(
                configs.into_iter().map(|c| (c.name.to_string(), c.settings)).collect(),
            )
        },
    );
    let (mut behaviour, registered) = match built {
        Ok(built) => built,
        Err(error) => panic!("{}", error),
    };
    let expected: Vec<(String, u8)> =
        vec![("/a", 1), ("/b", 2), ("/sync/2", 10), ("/state/1", 11), ("/light/2", 12)]
            .into_iter()
            .map(|(name, settings)| (name.to_string(), settings))
            .collect();
    assert_eq!(registered, expected);
    assert_nothing_pending(&mut behaviour);
}

#[test]
fn new_fails_with_the_error_of_the_registration() {
    let built = Behaviour::<Net>::new(
        config("/sync/2", 1),
        config("/sync/2", 2),
        config("/light/2", 3),
        Vec::new(),
        |configs: Vec<ProtocolConfig<Net>>| Err::<(), String>(format!("{} given", configs.len())),
    );
    match built {
        Ok(_) => panic!("the registration failed"),
        Err(error) => assert_eq!(error, "3 given"),
    }
}

#[test]
fn calls_on_other_protocols_become_actions() {
    let mut behaviour = behaviour();
    let peer = PeerId::random();
    let key = record::Key::new(&"key");

    match behaviour.add_known_address(peer, address(1)) {
        Action::AddKnownAddress { peer_id, addr } => {
            assert_eq!(peer_id, peer);
            assert_eq!(addr, address(1));
        }
        _ => panic!("another action"),
    }
    match behaviour.get_value(&key) {
        Action::GetValue(k) => assert_eq!(k, key),
        _ => panic!("another action"),
    }
    match behaviour.put_value(key.clone(), vec![1, 2]) {
        Action::PutValue(k, value) => {
            assert_eq!(k, key);
            assert_eq!(value, vec![1, 2]);
        }
        _ => panic!("another action"),
    }
    assert_nothing_pending(&mut behaviour);
}

#[test]
fn the_caller_chooses_whether_a_request_connects() {
    let mut behaviour = behaviour();
    let peer = PeerId::random();
    for choice in vec![IfDisconnected::TryConnect, IfDisconnected::ImmediateError] {
        let (sender, mut receiver) = oneshot::channel();
        match behaviour.send_request(&peer, "/custom", vec![9], sender, choice) {
            Action::SendRequest { target, protocol, request, pending_response, connect } => {
                assert_eq!(target, peer);
                assert_eq!(protocol, "/custom");
                assert_eq!(request, vec![9]);
                assert_eq!(connect, choice);
                pending_response.send(Ok(vec![7])).unwrap();
                assert_eq!(receiver.try_recv(), Ok(Some(Ok(vec![7]))));
            }
            _ => panic!("another action"),
        }
    }
}

#[test]
fn imports_are_announced() {
    let mut behaviour = behaviour();
    let peer = PeerId::random();
    let blocks = behaviour.inject_event(protocol(CustomMessageOutcome::BlockImport(
        "initial sync",
        vec![3, 4],
    )));
    assert!(blocks.is_empty());
    let justifications = behaviour.inject_event(protocol(
        CustomMessageOutcome::JustificationImport(peer, [1, 2, 3, 4], 77, vec![5]),
    ));
    assert!(justifications.is_empty());
    match next_event(&mut behaviour) {
        BehaviourOut::BlockImport(origin, blocks) => {
            assert_eq!(origin, "initial sync");
            assert_eq!(blocks, vec![3, 4]);
        }
        _ => panic!("another event"),
    }
    match next_event(&mut behaviour) {
        BehaviourOut::JustificationImport(origin, hash, number, justifications) => {
            assert_eq!(origin, peer);
            assert_eq!(hash, [1, 2, 3, 4]);
            assert_eq!(number, 77);
            assert_eq!(justifications, vec![5]);
        }
        _ => panic!("another event"),
    }
    assert_nothing_pending(&mut behaviour);
}

#[test]
fn block_and_state_requests_go_over_their_protocols() {
    let mut behaviour = behaviour();
    let peer = PeerId::random();
    for expected in vec!["/sync/2", "/state/1"] {
        let (pending_response, mut receiver) = oneshot::channel();
        let request = Ok(vec![1, 2, 3]);
        let event = if expected == "/sync/2" {
            CustomMessageOutcome::BlockRequest { target: peer, request, pending_response }
        } else {
            CustomMessageOutcome::StateRequest { target: peer, request, pending_response }
        };
        match only(behaviour.inject_event(protocol(event))) {
            Action::SendRequest { target, protocol, request, pending_response, connect } => {
                assert_eq!(target, peer);
                assert_eq!(protocol, expected);
                assert_eq!(request, vec![1, 2, 3]);
                assert_eq!(connect, IfDisconnected::ImmediateError);
                pending_response.send(Err("refused")).unwrap();
                assert_eq!(receiver.try_recv(), Ok(Some(Err("refused"))));
            }
            _ => panic!("another action"),
        }
        assert_nothing_pending(&mut behaviour);
    }
}

#[test]
fn requests_that_cannot_be_encoded_are_dropped() {
    let mut behaviour = behaviour();
    let target = PeerId::random();

    let (pending_response, mut receiver) = oneshot::channel();
    let request = Err(encode_error());
    let event = CustomMessageOutcome::BlockRequest { target, request, pending_response };
    assert!(behaviour.inject_event(protocol(event)).is_empty());
    assert!(receiver.try_recv().is_err());

    let (pending_response, mut receiver) = oneshot::channel();
    let request = Err(encode_error());
    let event = CustomMessageOutcome::StateRequest { target, request, pending_response };
    assert!(behaviour.inject_event(protocol(event)).is_empty());
    assert!(receiver.try_recv().is_err());

    assert_nothing_pending(&mut behaviour);
}

#[test]
fn notification_streams_are_announced() {
    let mut behaviour = behaviour();
    let remote = PeerId::random();
    let events = vec![
        CustomMessageOutcome::NotificationStreamOpened {
            remote,
            protocol: Cow::Borrowed("/transactions/1"),
            negotiated_fallback: Some(Cow::Borrowed("/transactions/0")),
            roles: Roles { authority: false, full: true },
            notifications_sink: 40,
        },
        CustomMessageOutcome::NotificationStreamReplaced {
            remote,
            protocol: Cow::Borrowed("/transactions/1"),
            notifications_sink: 41,
        },
        CustomMessageOutcome::NotificationsReceived {
            remote,
            messages: vec![(Cow::Borrowed("/transactions/1"), Bytes::from_static(b"tx"))],
        },
        CustomMessageOutcome::NotificationStreamClosed {
            remote,
            protocol: Cow::Borrowed("/transactions/1"),
        },
    ];
    for event in events {
        assert!(behaviour.inject_event(protocol(event)).is_empty());
    }
    match next_event(&mut behaviour) {
        BehaviourOut::NotificationStreamOpened {
            remote: peer,
            protocol,
            negotiated_fallback,
            notifications_sink,
            role,
        } => {
            assert_eq!(peer, remote);
            assert_eq!(protocol, "/transactions/1");
            assert_eq!(negotiated_fallback, Some(Cow::Borrowed("/transactions/0")));
            assert_eq!(notifications_sink, 40);
            assert_eq!(role, ObservedRole::Full);
        }
        _ => panic!("another event"),
    }
    match next_event(&mut behaviour) {
        BehaviourOut::NotificationStreamReplaced { remote: peer, protocol, notifications_sink } => {
            assert_eq!(peer, remote);
            assert_eq!(protocol, "/transactions/1");
            assert_eq!(notifications_sink, 41);
        }
        _ => panic!("another event"),
    }
    match next_event(&mut behaviour) {
        BehaviourOut::NotificationsReceived { remote: peer, messages } => {
            assert_eq!(peer, remote);
            let expected: Vec<(Cow<'static, str>, Bytes)> =
                vec![(Cow::Borrowed("/transactions/1"), Bytes::from_static(b"tx"))];
            assert_eq!(messages, expected);
        }
        _ => panic!("another event"),
    }
    match next_event(&mut behaviour) {
        BehaviourOut::NotificationStreamClosed { remote: peer, protocol } => {
            assert_eq!(peer, remote);
            assert_eq!(protocol, "/transactions/1");
        }
        _ => panic!("another event"),
    }
    assert_nothing_pending(&mut behaviour);
}

#[test]
fn sync_connections_are_announced_and_told_to_the_light_client() {
    let mut behaviour = behaviour();
    let peer = PeerId::random();
    let connected = behaviour.inject_event(protocol(CustomMessageOutcome::SyncConnected(peer)));
    assert!(matches!(only(connected), Action::InjectConnected(p) if p == peer));
    let best = behaviour.inject_event(protocol(CustomMessageOutcome::PeerNewBest(peer, 12)));
    assert!(matches!(only(best), Action::UpdateBestBlock(p, 12) if p == peer));
    let gone = behaviour.inject_event(protocol(CustomMessageOutcome::SyncDisconnected(peer)));
    assert!(matches!(only(gone), Action::InjectDisconnected(p) if p == peer));

    let event = next_event(&mut behaviour);
    assert!(matches!(event, BehaviourOut::SyncConnected(p) if p == peer));
    let event = next_event(&mut behaviour);
    assert!(matches!(event, BehaviourOut::SyncDisconnected(p) if p == peer));
    assert_nothing_pending(&mut behaviour);
}

#[test]
fn events_without_consequences() {
    let mut behaviour = behaviour();
    assert!(behaviour.inject_event(protocol(CustomMessageOutcome::Nothing)).is_empty());
    let unroutable = DiscoveryOut::UnroutablePeer(PeerId::random());
    assert!(behaviour.inject_event(discovery(unroutable)).is_empty());
    assert_nothing_pending(&mut behaviour);
}

#[test]
fn request_statistics_are_announced() {
    let mut behaviour = behaviour();
    let peer = PeerId::random();
    let inbound = BehaviourEvent::RequestResponses(RequestResponsesEvent::InboundRequest {
        peer,
        protocol: Cow::Borrowed("/sync/2"),
        result: Ok(Duration::from_millis(5)),
    });
    assert!(behaviour.inject_event(inbound).is_empty());
    let failed = BehaviourEvent::RequestResponses(RequestResponsesEvent::InboundRequest {
        peer,
        protocol: Cow::Borrowed("/sync/2"),
        result: Err("network"),
    });
    assert!(behaviour.inject_event(failed).is_empty());
    let finished = BehaviourEvent::RequestResponses(RequestResponsesEvent::RequestFinished {
        peer,
        protocol: Cow::Borrowed("/light/2"),
        duration: Duration::from_secs(3),
        result: Err("obsolete"),
    });
    assert!(behaviour.inject_event(finished).is_empty());

    for expected in vec![Ok(Duration::from_millis(5)), Err("network")] {
        match next_event(&mut behaviour) {
            BehaviourOut::InboundRequest { peer: p, protocol, result } => {
                assert_eq!(p, peer);
                assert_eq!(protocol, "/sync/2");
                assert_eq!(result, expected);
            }
            _ => panic!("another event"),
        }
    }
    match next_event(&mut behaviour) {
        BehaviourOut::RequestFinished { peer: p, protocol, duration, result } => {
            assert_eq!(p, peer);
            assert_eq!(protocol, "/light/2");
            assert_eq!(duration, Duration::from_secs(3));
            assert_eq!(result, Err("obsolete"));
        }
        _ => panic!("another event"),
    }
    assert_nothing_pending(&mut behaviour);
}

#[test]
fn reputation_changes_are_reported_in_order() {
    let mut behaviour = behaviour();
    let peer = PeerId::random();
    let actions = behaviour.inject_event(BehaviourEvent::RequestResponses(
        RequestResponsesEvent::ReputationChanges { peer, changes: vec![-5, 3, -5] },
    ));
    let mut changes: Vec<i32> = Vec::new();
    for action in actions {
        match action {
            Action::ReportPeer { peer: p, change } => {
                assert_eq!(p, peer);
                changes.push(change);
            }
            _ => panic!("another action"),
        }
    }
    assert_eq!(changes, vec![-5, 3, -5]);
    assert_nothing_pending(&mut behaviour);
}

#[test]
fn identification_without_addresses_still_makes_the_node_known() {
    let mut behaviour = behaviour();
    let peer = PeerId::random();
    assert_identified(behaviour.inject_event(identified(peer, 0)), peer, 0);
    assert_nothing_pending(&mut behaviour);
}

#[test]
fn identification_passes_on_at_most_thirty_addresses() {
    let mut behaviour = behaviour();
    let peer = PeerId::random();
    assert_eq!(MAX_REPORTED_ADDRESSES, 30);
    assert_identified(behaviour.inject_event(identified(peer, 29)), peer, 29);
    assert_identified(behaviour.inject_event(identified(peer, 30)), peer, 30);
    assert_identified(behaviour.inject_event(identified(peer, 31)), peer, 30);
    assert_identified(behaviour.inject_event(identified(peer, 100)), peer, 30);
    assert_nothing_pending(&mut behaviour);
}

#[test]
fn discovered_nodes_become_known() {
    let mut behaviour = behaviour();
    let peer = PeerId::random();
    let actions = behaviour.inject_event(discovery(DiscoveryOut::Discovered(peer)));
    assert!(matches!(only(actions), Action::AddDefaultSetDiscoveredNode(p) if p == peer));
    assert_nothing_pending(&mut behaviour);
}

#[test]
fn answers_of_the_hash_table_are_announced() {
    let mut behaviour = behaviour();
    let key = record::Key::new(&"key");
    let time = Duration::from_millis(8);
    let events = vec![
        DiscoveryOut::ValueFound(vec![(key.clone(), vec![1])], time),
        DiscoveryOut::ValueNotFound(key.clone(), time),
        DiscoveryOut::ValuePut(key.clone(), time),
        DiscoveryOut::ValuePutFailed(key.clone(), time),
    ];
    for event in events {
        assert!(behaviour.inject_event(discovery(event)).is_empty());
    }
    match next_event(&mut behaviour) {
        BehaviourOut::Dht(DhtEvent::ValueFound(results), duration) => {
            assert_eq!(results, vec![(key.clone(), vec![1])]);
            assert_eq!(duration, time);
        }
        _ => panic!("another event"),
    }
    let event = next_event(&mut behaviour);
    assert!(matches!(event, BehaviourOut::Dht(DhtEvent::ValueNotFound(k), d) if k == key && d == time));
    let event = next_event(&mut behaviour);
    assert!(matches!(event, BehaviourOut::Dht(DhtEvent::ValuePut(k), d) if k == key && d == time));
    let event = next_event(&mut behaviour);
    assert!(matches!(event, BehaviourOut::Dht(DhtEvent::ValuePutFailed(k), d) if k == key && d == time));
    assert_nothing_pending(&mut behaviour);
}

#[test]
fn random_queries_are_announced_one_by_one() {
    let mut behaviour = behaviour();
    let started = DiscoveryOut::RandomKademliaStarted(vec!["dot", "ksm"]);
    assert!(behaviour.inject_event(discovery(started)).is_empty());
    let event = next_event(&mut behaviour);
    assert!(matches!(event, BehaviourOut::RandomKademliaStarted("dot")));
    let event = next_event(&mut behaviour);
    assert!(matches!(event, BehaviourOut::RandomKademliaStarted("ksm")));
    assert_nothing_pending(&mut behaviour);

    let none = DiscoveryOut::RandomKademliaStarted(Vec::new());
    assert!(behaviour.inject_event(discovery(none)).is_empty());
    assert_nothing_pending(&mut behaviour);
}

#[test]
fn light_client_requests_come_before_announcements() {
    let mut behaviour = behaviour();
    let peer = PeerId::random();
    behaviour.inject_event(protocol(CustomMessageOutcome::SyncConnected(peer)));
    for number in vec![1u8, 2u8] {
        let (pending_response, mut receiver) = oneshot::channel();
        let wanted = OutEvent::SendRequest {
            target: peer,
            request: vec![number],
            pending_response,
            protocol_name: "/light/2".to_string(),
        };
        match behaviour.poll(LightClientPoll::Ready(wanted)) {
            PollStep::Perform(Action::SendRequest {
                target,
                protocol,
                request,
                pending_response,
                connect,
            }) => {
                assert_eq!(target, peer);
                assert_eq!(protocol, "/light/2");
                assert_eq!(request, vec![number]);
                assert_eq!(connect, IfDisconnected::ImmediateError);
                pending_response.send(Ok(Vec::new())).unwrap();
                assert_eq!(receiver.try_recv(), Ok(Some(Ok(Vec::new()))));
            }
            _ => panic!("another step"),
        }
    }
    let step = behaviour.poll(LightClientPoll::Ended);
    assert!(matches!(step, PollStep::GenerateEvent(BehaviourOut::SyncConnected(p)) if p == peer));
    assert!(matches!(behaviour.poll(LightClientPoll::Ended), PollStep::Pending));
}

#[test]
fn announcements_of_different_protocols_keep_their_order() {
    let mut behaviour = behaviour();
    let first = PeerId::random();
    let second = PeerId::random();
    behaviour.inject_event(protocol(CustomMessageOutcome::SyncConnected(first)));
    behaviour.inject_event(discovery(DiscoveryOut::RandomKademliaStarted(vec!["dot"])));
    let event = next_event(&mut behaviour);
    assert!(matches!(event, BehaviourOut::SyncConnected(p) if p == first));
    behaviour.inject_event(identified(second, 2));
    behaviour.inject_event(protocol(CustomMessageOutcome::SyncConnected(second)));
    let event = next_event(&mut behaviour);
    assert!(matches!(event, BehaviourOut::RandomKademliaStarted("dot")));
    let event = next_event(&mut behaviour);
    assert!(matches!(event, BehaviourOut::SyncConnected(p) if p == second));
    assert_nothing_pending(&mut behaviour);
}

#[test]
fn wanted_requests_are_sent_in_order() {
    let mut behaviour = behaviour();
    let target = PeerId::random();
    let mut sent: Vec<(String, Vec<u8>)> = Vec::new();
    let mut note = |action: Action<Net>| match action {
        Action::SendRequest { protocol, request, .. } => sent.push((protocol, request)),
        _ => panic!("another action"),
    };

    let block = CustomMessageOutcome::BlockRequest {
        target,
        request: Ok(vec![1]),
        pending_response: oneshot::channel().0,
    };
    behaviour.inject_event(protocol(block)).into_iter().for_each(&mut note);
    let light = OutEvent::SendRequest {
        target,
        request: vec![2],
        pending_response: oneshot::channel().0,
        protocol_name: "/light/2".to_string(),
    };
    match behaviour.poll(LightClientPoll::Ready(light)) {
        PollStep::Perform(action) => note(action),
        _ => panic!("another step"),
    }
    let lost = CustomMessageOutcome::BlockRequest {
        target,
        request: Err(encode_error()),
        pending_response: oneshot::channel().0,
    };
    behaviour.inject_event(protocol(lost)).into_iter().for_each(&mut note);
    let state = CustomMessageOutcome::StateRequest {
        target,
        request: Ok(vec![3]),
        pending_response: oneshot::channel().0,
    };
    behaviour.inject_event(protocol(state)).into_iter().for_each(&mut note);

    assert_eq!(
        sent,
        vec![
            ("/sync/2".to_string(), vec![1]),
            ("/light/2".to_string(), vec![2]),
            ("/state/1".to_string(), vec![3]),
        ]
    );
}

fn light_client_request(target: PeerId) -> LightClientPoll<Net> {
    LightClientPoll::Ready(OutEvent::SendRequest {
        target,
        request: vec![0],
        pending_response: oneshot::channel().0,
        protocol_name: "/light/2".to_string(),
    })
}

#[test]
fn answers_are_handed_out_whatever_else_is_called() {
    let mut behaviour = behaviour();
    let peer = PeerId::random();
    let key = record::Key::new(&"key");
    let time = Duration::from_millis(2);

    behaviour.inject_event(protocol(CustomMessageOutcome::SyncConnected(peer)));
    assert!(matches!(behaviour.get_value(&key), Action::GetValue(_)));
    behaviour.inject_event(discovery(DiscoveryOut::ValueNotFound(key.clone(), time)));
    assert!(matches!(behaviour.put_value(key.clone(), vec![4]), Action::PutValue(_, _)));
    behaviour.inject_event(discovery(DiscoveryOut::ValuePut(key.clone(), time)));

    assert!(matches!(behaviour.poll(light_client_request(peer)), PollStep::Perform(_)));
    assert!(matches!(next_event(&mut behaviour), BehaviourOut::SyncConnected(_)));
    behaviour.inject_event(protocol(CustomMessageOutcome::SyncDisconnected(peer)));
    assert!(matches!(behaviour.poll(light_client_request(peer)), PollStep::Perform(_)));
    let event = next_event(&mut behaviour);
    assert!(matches!(event, BehaviourOut::Dht(DhtEvent::ValueNotFound(k), d) if k == key && d == time));
    let event = next_event(&mut behaviour);
    assert!(matches!(event, BehaviourOut::Dht(DhtEvent::ValuePut(k), d) if k == key && d == time));
    assert!(matches!(next_event(&mut behaviour), BehaviourOut::SyncDisconnected(_)));
    assert_nothing_pending(&mut behaviour);
}

#[test]
fn polling_hands_out_one_announcement_per_idle_poll() {
    let mut behaviour = behaviour();
    let peer = PeerId::random();
    let started = DiscoveryOut::RandomKademliaStarted(vec!["a", "b", "c"]);
    behaviour.inject_event(discovery(started));
    let mut names: Vec<&'static str> = Vec::new();
    for idle in vec![true, false, false, true, true, false, true] {
        let light_client =
            if idle { LightClientPoll::Ended } else { light_client_request(peer) };
        match behaviour.poll(light_client) {
            PollStep::GenerateEvent(BehaviourOut::RandomKademliaStarted(name)) => {
                assert!(idle);
                names.push(name);
            }
            PollStep::Perform(_) => assert!(!idle),
            PollStep::Pending => assert_eq!(names.len(), 3),
            _ => panic!("another step"),
        }
    }
    assert_eq!(names, vec!["a", "b", "c"]);
}
