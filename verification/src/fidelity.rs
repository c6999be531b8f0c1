//! That what comes out of the behaviour is what the protocols told it: nothing is left out, whatever
//! an event holds, and nothing is altered on the way.

use std::borrow::Cow;
use std::time::Duration;

use bytes::Bytes;
use libp2p::PeerId;
use vstd::prelude::*;

use crate::action::{Action, PollStep};
use crate::event::{
    BehaviourEvent, BehaviourOut, CustomMessageOutcome, DhtEvent, DiscoveryOut, LightClientPoll,
    PeerInfoEvent, RequestResponsesEvent,
};
use crate::laws::{law_every_announcement_is_kept, queued, run, Input, SyncChange};
use crate::network::Network;
use crate::protocols::ProtocolNames;
use crate::role::{ObservedRole, Roles};

verus! {

/// Whether the event announces just `out`, and asks for nothing.
pub open spec fn only_announces<N: Network>(
    names: ProtocolNames,
    event: BehaviourEvent<N>,
    out: BehaviourOut<N>,
) -> bool {
    &&& crate::routing::announcements(event).len() == 1
    &&& crate::routing::announcements(event)[0] == out
    &&& crate::routing::actions(names, event).len() == 0
}

/// Whether the event asks for just `action`, and announces nothing.
pub open spec fn only_asks<N: Network>(
    names: ProtocolNames,
    event: BehaviourEvent<N>,
    action: Action<N>,
) -> bool {
    &&& crate::routing::announcements(event).len() == 0
    &&& crate::routing::actions(names, event).len() == 1
    &&& crate::routing::actions(names, event)[0] == action
}

/// Whether nothing comes of the event.
pub open spec fn leads_to_nothing<N: Network>(
    names: ProtocolNames,
    event: BehaviourEvent<N>,
) -> bool {
    &&& crate::routing::announcements(event).len() == 0
    &&& crate::routing::actions(names, event).len() == 0
}

/// It makes no difference whether an event is given to `inject_event` or to the function for the
/// protocol that it comes from.
pub proof fn law_each_protocol_has_its_own_entry<N: Network>(
    names: ProtocolNames,
    outcome: CustomMessageOutcome<N>,
    exchange: RequestResponsesEvent<N>,
    identification: PeerInfoEvent,
    finding: DiscoveryOut<N>,
)
    ensures
        crate::routing::protocol_announcements(outcome) == crate::routing::announcements(
            BehaviourEvent::Protocol(outcome),
        ),
        crate::routing::protocol_actions(names, outcome) == crate::routing::actions(
            names,
            BehaviourEvent::Protocol(outcome),
        ),
        crate::routing::request_responses_announcements(exchange) == crate::routing::announcements(
            BehaviourEvent::RequestResponses(exchange),
        ),
        crate::routing::request_responses_actions(exchange) == crate::routing::actions(
            names,
            BehaviourEvent::RequestResponses(exchange),
        ),
        crate::routing::announcements(BehaviourEvent::<N>::PeerInfo(identification)).len() == 0,
        crate::routing::peer_info_actions::<N>(identification) == crate::routing::actions(
            names,
            BehaviourEvent::<N>::PeerInfo(identification),
        ),
        crate::routing::discovery_announcements(finding) == crate::routing::announcements(
            BehaviourEvent::Discovery(finding),
        ),
        crate::routing::discovery_actions(finding) == crate::routing::actions(
            names,
            BehaviourEvent::Discovery(finding),
        ),
{
}

/// A remote is seen as an authority exactly when it reports to be one, as a full node exactly when
/// it reports to be full and no authority, and as a light node exactly when it reports neither.
pub proof fn law_a_remote_has_the_role_that_it_reports(roles: Roles)
    ensures
        crate::role::observed_role(roles) == ObservedRole::Authority <==> roles.authority,
        crate::role::observed_role(roles) == ObservedRole::Full <==> roles.full && !roles.authority,
        crate::role::observed_role(roles) == ObservedRole::Light <==> !roles.full
            && !roles.authority,
{
}

/// An opening of a notification stream is announced as it was reported, with the role that the
/// remote reports; nothing else comes of it.
pub proof fn law_openings_are_announced_with_the_role<N: Network>(
    names: ProtocolNames,
    remote: PeerId,
    protocol: Cow<'static, str>,
    negotiated_fallback: Option<Cow<'static, str>>,
    roles: Roles,
    notifications_sink: N::NotificationsSink,
)
    ensures
        ({
            let event = BehaviourEvent::<N>::Protocol(
                CustomMessageOutcome::NotificationStreamOpened {
                    remote,
                    protocol,
                    negotiated_fallback,
                    roles,
                    notifications_sink,
                },
            );
            &&& crate::routing::actions(names, event).len() == 0
            &&& crate::routing::announcements(event).len() == 1
            &&& crate::routing::announcements(
                event,
            )[0] matches BehaviourOut::NotificationStreamOpened {
                remote: announced_remote,
                protocol: announced_protocol,
                negotiated_fallback: announced_fallback,
                notifications_sink: announced_sink,
                role,
            }
            &&& announced_remote == remote
            &&& announced_protocol == protocol
            &&& announced_fallback == negotiated_fallback
            &&& announced_sink == notifications_sink
            &&& role == ObservedRole::Authority <==> roles.authority
            &&& role == ObservedRole::Full <==> roles.full && !roles.authority
            &&& role == ObservedRole::Light <==> !roles.full && !roles.authority
        }),
{
}

/// A replacement of the sink of a notification stream is announced, whatever the name of the
/// protocol, and so is the closing of a stream; nothing else comes of them.
pub proof fn law_replacements_and_closings_are_announced<N: Network>(
    names: ProtocolNames,
    remote: PeerId,
    protocol: Cow<'static, str>,
    notifications_sink: N::NotificationsSink,
)
    ensures
        only_announces::<N>(
            names,
            BehaviourEvent::Protocol(
                CustomMessageOutcome::NotificationStreamReplaced {
                    remote,
                    protocol,
                    notifications_sink,
                },
            ),
            BehaviourOut::NotificationStreamReplaced { remote, protocol, notifications_sink },
        ),
        only_announces::<N>(
            names,
            BehaviourEvent::Protocol(
                CustomMessageOutcome::NotificationStreamClosed { remote, protocol },
            ),
            BehaviourOut::NotificationStreamClosed { remote, protocol },
        ),
{
}

/// Notifications that were received together are announced together, however many they are.
pub proof fn law_notifications_are_announced<N: Network>(
    names: ProtocolNames,
    remote: PeerId,
    messages: Vec<(Cow<'static, str>, Bytes)>,
)
    ensures
        only_announces::<N>(
            names,
            BehaviourEvent::Protocol(
                CustomMessageOutcome::NotificationsReceived { remote, messages },
            ),
            BehaviourOut::NotificationsReceived { remote, messages },
        ),
{
}

/// Blocks that are ready to be imported are announced, however many they are, and so are
/// justifications; nothing else comes of them.
pub proof fn law_imports_are_announced<N: Network>(
    names: ProtocolNames,
    block_origin: N::BlockOrigin,
    blocks: Vec<N::IncomingBlock>,
    origin: PeerId,
    hash: N::Hash,
    number: N::Number,
    justifications: N::Justifications,
)
    ensures
        only_announces::<N>(
            names,
            BehaviourEvent::Protocol(CustomMessageOutcome::BlockImport(block_origin, blocks)),
            BehaviourOut::BlockImport(block_origin, blocks),
        ),
        only_announces::<N>(
            names,
            BehaviourEvent::Protocol(
                CustomMessageOutcome::JustificationImport(origin, hash, number, justifications),
            ),
            BehaviourOut::JustificationImport(origin, hash, number, justifications),
        ),
{
}

/// The outcome of a request, one that was received or one that was sent, is announced whether the
/// request succeeded or failed; nothing else comes of it.
pub proof fn law_request_outcomes_are_announced<N: Network>(
    names: ProtocolNames,
    peer: PeerId,
    protocol: Cow<'static, str>,
    response: Result<Duration, N::ResponseFailure>,
    duration: Duration,
    result: Result<(), N::RequestFailure>,
)
    ensures
        only_announces::<N>(
            names,
            BehaviourEvent::RequestResponses(
                RequestResponsesEvent::InboundRequest { peer, protocol, result: response },
            ),
            BehaviourOut::InboundRequest { peer, protocol, result: response },
        ),
        only_announces::<N>(
            names,
            BehaviourEvent::RequestResponses(
                RequestResponsesEvent::RequestFinished { peer, protocol, duration, result },
            ),
            BehaviourOut::RequestFinished { peer, protocol, duration, result },
        ),
{
}

/// A peer that connects or disconnects for syncing purposes is announced, and the light client's
/// request sender is told of it, both once and of the same peer.
pub proof fn law_sync_peers_are_announced_and_told_to_the_light_client<N: Network>(
    names: ProtocolNames,
    peer_id: PeerId,
)
    ensures
        ({
            let event = BehaviourEvent::<N>::Protocol(CustomMessageOutcome::SyncConnected(peer_id));
            &&& crate::routing::announcements(event).len() == 1
            &&& crate::routing::announcements(event)[0] == BehaviourOut::<N>::SyncConnected(peer_id)
            &&& crate::routing::actions(names, event).len() == 1
            &&& crate::routing::actions(names, event)[0] == Action::<N>::InjectConnected(peer_id)
        }),
        ({
            let event = BehaviourEvent::<N>::Protocol(
                CustomMessageOutcome::SyncDisconnected(peer_id),
            );
            &&& crate::routing::announcements(event).len() == 1
            &&& crate::routing::announcements(event)[0] == BehaviourOut::<N>::SyncDisconnected(
                peer_id,
            )
            &&& crate::routing::actions(names, event).len() == 1
            &&& crate::routing::actions(names, event)[0] == Action::<N>::InjectDisconnected(peer_id)
        }),
{
}

/// What the light client's request sender and the synchronisation protocol need to know of a peer,
/// its best block or that it has been discovered, they are told, and nobody else is.
pub proof fn law_news_of_peers_is_passed_on<N: Network>(
    names: ProtocolNames,
    peer_id: PeerId,
    number: N::Number,
)
    ensures
        only_asks::<N>(
            names,
            BehaviourEvent::Protocol(CustomMessageOutcome::PeerNewBest(peer_id, number)),
            Action::UpdateBestBlock(peer_id, number),
        ),
        only_asks::<N>(
            names,
            BehaviourEvent::Discovery(DiscoveryOut::Discovered(peer_id)),
            Action::AddDefaultSetDiscoveredNode(peer_id),
        ),
{
}

/// Nothing comes of a message that led to nothing, nor of a peer without a known address, which the
/// identification protocol takes care of.
pub proof fn law_some_events_lead_to_nothing<N: Network>(names: ProtocolNames, peer_id: PeerId)
    ensures
        leads_to_nothing::<N>(names, BehaviourEvent::Protocol(CustomMessageOutcome::Nothing)),
        leads_to_nothing::<N>(
            names,
            BehaviourEvent::Discovery(DiscoveryOut::UnroutablePeer(peer_id)),
        ),
{
}

/// Random queries are announced one by one, one for each instance that started one, in order.
pub proof fn law_random_queries_are_announced_one_by_one<N: Network>(
    names: ProtocolNames,
    protocols: Vec<N::ProtocolId>,
)
    ensures
        ({
            let event = BehaviourEvent::<N>::Discovery(
                DiscoveryOut::RandomKademliaStarted(protocols),
            );
            let announcements = crate::routing::announcements(event);
            &&& crate::routing::actions(names, event).len() == 0
            &&& announcements.len() == protocols@.len()
            &&& forall|i: int|
                0 <= i < protocols@.len() ==> #[trigger] announcements[i]
                    == BehaviourOut::<N>::RandomKademliaStarted(protocols@[i])
        }),
{
}

/// Of an identification, the first thirty addresses are passed on, or all if there are fewer, and
/// nothing is announced.
pub proof fn law_identification_passes_on_the_first_addresses<N: Network>(
    names: ProtocolNames,
    event: PeerInfoEvent,
)
    ensures
        event matches PeerInfoEvent::Identified { peer_id: peer, info } && {
            let actions = crate::routing::actions(names, BehaviourEvent::<N>::PeerInfo(event));
            &&& crate::routing::announcements(BehaviourEvent::<N>::PeerInfo(event)).len() == 0
            &&& info.listen_addrs@.len() <= 30 ==> actions.len() == info.listen_addrs@.len() + 1
            &&& info.listen_addrs@.len() >= 30 ==> actions.len() == 31
            &&& forall|i: int|
                0 <= i < info.listen_addrs@.len() && i < 30 ==> #[trigger] actions[i]
                    == (Action::<N>::AddSelfReportedAddress {
                    peer_id: peer,
                    protocols: info.protocols,
                    addr: info.listen_addrs@[i],
                })
            &&& actions[actions.len() - 1] == Action::<N>::AddDefaultSetDiscoveredNode(peer)
        },
{
}

/// A poll at which the light client wants nothing hands out the oldest announcement, and that one
/// alone leaves the queue.
pub proof fn law_an_idle_poll_hands_out_the_oldest<N: Network>(
    oldest: BehaviourOut<N>,
    rest: Seq<BehaviourOut<N>>,
    light_client: LightClientPoll<N>,
)
    requires
        light_client is Ended || light_client is Pending,
    ensures
        crate::routing::poll_step(seq![oldest] + rest, light_client)
            == PollStep::<N>::GenerateEvent(oldest),
        crate::routing::pending_after_poll(seq![oldest] + rest, light_client) == rest,
        crate::routing::poll_step(Seq::<BehaviourOut<N>>::empty(), light_client) == PollStep::<
            N,
        >::Pending,
{
    assert((seq![oldest] + rest).drop_first() =~= rest);
}

/// All that `f` makes of the items, in order.
pub open spec fn gather<A, B>(items: Seq<A>, f: spec_fn(A) -> Seq<B>) -> Seq<B>
    decreases items.len(),
{
    if items.len() == 0 {
        Seq::empty()
    } else {
        gather(items.drop_last(), f) + f(items.last())
    }
}

/// `gather` goes through the parts of a sequence one after the other.
proof fn lemma_gather_concat<A, B>(left: Seq<A>, right: Seq<A>, f: spec_fn(A) -> Seq<B>)
    ensures
        gather(left + right, f) == gather(left, f) + gather(right, f),
    decreases right.len(),
{
    if right.len() == 0 {
        assert(left + right =~= left);
        assert(gather(left, f) + gather(right, f) =~= gather(left, f));
    } else {
        lemma_gather_concat(left, right.drop_last(), f);
        assert((left + right).drop_last() =~= left + right.drop_last());
        assert((left + right).last() == right.last());
        assert(gather(left + right, f) =~= gather(left, f) + gather(right, f));
    }
}

/// Where `f` makes nothing of any item, nothing is gathered.
proof fn lemma_gather_nothing<A, B>(items: Seq<A>, f: spec_fn(A) -> Seq<B>)
    requires
        forall|i: int| 0 <= i < items.len() ==> f(#[trigger] items[i]).len() == 0,
    ensures
        gather(items, f) == Seq::<B>::empty(),
    decreases items.len(),
{
    if items.len() > 0 {
        assert(f(items[items.len() - 1]).len() == 0);
        assert forall|i: int| 0 <= i < items.drop_last().len() implies f(
            #[trigger] items.drop_last()[i],
        ).len() == 0 by {
            assert(items.drop_last()[i] == items[i]);
        }
        lemma_gather_nothing(items.drop_last(), f);
        assert(gather(items, f) =~= Seq::empty());
    }
}

/// What `f` makes of a single item.
proof fn lemma_gather_one<A, B>(items: Seq<A>, f: spec_fn(A) -> Seq<B>)
    requires
        items.len() == 1,
    ensures
        gather(items, f) == f(items[0]),
{
    reveal_with_fuel(gather, 2);
    assert(gather(items, f) =~= f(items[0]));
}

/// What the call announces.
pub open spec fn announced_by<N: Network>(input: Input<N>) -> Seq<BehaviourOut<N>> {
    match input {
        Input::Inject(event) => crate::routing::announcements(event),
        _ => Seq::empty(),
    }
}

/// If `out` finds in what each call announces just what `told` finds in the call itself, then over
/// many calls `out` finds in what was handed out and in what waits just what `told` finds in the
/// calls.
proof fn lemma_kept<N: Network, T>(
    names: ProtocolNames,
    inputs: Seq<Input<N>>,
    out: spec_fn(BehaviourOut<N>) -> Seq<T>,
    told: spec_fn(Input<N>) -> Seq<T>,
)
    requires
        forall|i: int|
            0 <= i < inputs.len() ==> gather(announced_by(#[trigger] inputs[i]), out) == told(
                inputs[i],
            ),
    ensures
        gather(run(names, Seq::empty(), inputs).announced, out) + gather(
            run(names, Seq::empty(), inputs).pending,
            out,
        ) == gather(inputs, told),
{
    let after = run(names, Seq::empty(), inputs);
    law_every_announcement_is_kept(names, Seq::empty(), inputs);
    assert(Seq::<BehaviourOut<N>>::empty() + queued(inputs) =~= queued(inputs));
    lemma_gather_concat(after.announced, after.pending, out);
    lemma_gather_queued(inputs, out, told);
}

/// The same of all that the calls announce.
proof fn lemma_gather_queued<N: Network, T>(
    inputs: Seq<Input<N>>,
    out: spec_fn(BehaviourOut<N>) -> Seq<T>,
    told: spec_fn(Input<N>) -> Seq<T>,
)
    requires
        forall|i: int|
            0 <= i < inputs.len() ==> gather(announced_by(#[trigger] inputs[i]), out) == told(
                inputs[i],
            ),
    ensures
        gather(queued(inputs), out) == gather(inputs, told),
    decreases inputs.len(),
{
    if inputs.len() > 0 {
        let rest = inputs.drop_last();
        assert forall|i: int| 0 <= i < rest.len() implies gather(
            announced_by(#[trigger] rest[i]),
            out,
        ) == told(rest[i]) by {
            assert(rest[i] == inputs[i]);
        }
        lemma_gather_queued(rest, out, told);
        let last = inputs[inputs.len() - 1];
        assert(gather(announced_by(last), out) == told(last));
        assert(queued(inputs) =~= queued(rest) + announced_by(last));
        lemma_gather_concat(queued(rest), announced_by(last), out);
    }
}

/// Something that is ready to be imported.
pub enum Import<N: Network> {
    /// Blocks, with where they come from.
    Blocks(N::BlockOrigin, Vec<N::IncomingBlock>),
    /// Justifications, with who sent them and of which block they are.
    Justifications(PeerId, N::Hash, N::Number, N::Justifications),
}

/// The imports that an announcement tells of.
pub open spec fn announced_imports<N: Network>(out: BehaviourOut<N>) -> Seq<Import<N>> {
    match out {
        BehaviourOut::BlockImport(origin, blocks) => seq![Import::Blocks(origin, blocks)],
        BehaviourOut::JustificationImport(origin, hash, number, justifications) => seq![
            Import::Justifications(origin, hash, number, justifications),
        ],
        _ => Seq::empty(),
    }
}

/// The imports that a call tells the behaviour of.
pub open spec fn told_imports<N: Network>(input: Input<N>) -> Seq<Import<N>> {
    match input {
        Input::Inject(
            BehaviourEvent::Protocol(CustomMessageOutcome::BlockImport(origin, blocks)),
        ) => seq![Import::Blocks(origin, blocks)],
        Input::Inject(
            BehaviourEvent::Protocol(
                CustomMessageOutcome::JustificationImport(origin, hash, number, justifications),
            ),
        ) => seq![Import::Justifications(origin, hash, number, justifications)],
        _ => Seq::empty(),
    }
}

/// The outcome of a request.
pub enum RequestOutcome<N: Network> {
    /// Of a request that a peer sent us.
    Inbound(PeerId, Cow<'static, str>, Result<Duration, N::ResponseFailure>),
    /// Of a request that we sent.
    Outbound(PeerId, Cow<'static, str>, Duration, Result<(), N::RequestFailure>),
}

/// The outcomes of requests that an announcement tells of.
pub open spec fn announced_outcomes<N: Network>(out: BehaviourOut<N>) -> Seq<RequestOutcome<N>> {
    match out {
        BehaviourOut::InboundRequest { peer, protocol, result } => seq![
            RequestOutcome::Inbound(peer, protocol, result),
        ],
        BehaviourOut::RequestFinished { peer, protocol, duration, result } => seq![
            RequestOutcome::Outbound(peer, protocol, duration, result),
        ],
        _ => Seq::empty(),
    }
}

/// The outcomes of requests that a call tells the behaviour of.
pub open spec fn told_outcomes<N: Network>(input: Input<N>) -> Seq<RequestOutcome<N>> {
    match input {
        Input::Inject(
            BehaviourEvent::RequestResponses(
                RequestResponsesEvent::InboundRequest { peer, protocol, result },
            ),
        ) => seq![RequestOutcome::Inbound(peer, protocol, result)],
        Input::Inject(
            BehaviourEvent::RequestResponses(
                RequestResponsesEvent::RequestFinished { peer, protocol, duration, result },
            ),
        ) => seq![RequestOutcome::Outbound(peer, protocol, duration, result)],
        _ => Seq::empty(),
    }
}

/// A notification, with who sent it and over which protocol.
pub struct Notification {
    /// Node that sent it.
    pub remote: PeerId,
    /// Protocol and content.
    pub message: (Cow<'static, str>, Bytes),
}

/// The notifications of a batch, one by one.
pub open spec fn notifications(
    remote: PeerId,
    messages: Seq<(Cow<'static, str>, Bytes)>,
) -> Seq<Notification> {
    Seq::new(messages.len(), |i: int| Notification { remote, message: messages[i] })
}

/// The notifications that an announcement tells of.
pub open spec fn announced_notifications<N: Network>(out: BehaviourOut<N>) -> Seq<Notification> {
    match out {
        BehaviourOut::NotificationsReceived { remote, messages } => notifications(
            remote,
            messages@,
        ),
        _ => Seq::empty(),
    }
}

/// The notifications that a call tells the behaviour of.
pub open spec fn told_notifications<N: Network>(input: Input<N>) -> Seq<Notification> {
    match input {
        Input::Inject(
            BehaviourEvent::Protocol(
                CustomMessageOutcome::NotificationsReceived { remote, messages },
            ),
        ) => notifications(remote, messages@),
        _ => Seq::empty(),
    }
}

/// Something that happens to a notification stream.
pub enum StreamEvent<N: Network> {
    /// It is opened.
    Opened {
        /// Node at the other end.
        remote: PeerId,
        /// The protocol.
        protocol: Cow<'static, str>,
        /// The name that was negotiated, if it is not the main one.
        negotiated_fallback: Option<Cow<'static, str>>,
        /// Object that permits sending notifications.
        sink: N::NotificationsSink,
        /// Whether the remote counts as an authority.
        is_authority: bool,
        /// Whether the remote counts as a full node that is no authority.
        is_full: bool,
    },
    /// Its sink is replaced.
    Replaced {
        /// Node at the other end.
        remote: PeerId,
        /// The protocol.
        protocol: Cow<'static, str>,
        /// The new sink.
        sink: N::NotificationsSink,
    },
    /// It is closed.
    Closed {
        /// Node at the other end.
        remote: PeerId,
        /// The protocol.
        protocol: Cow<'static, str>,
    },
}

/// What an announcement tells of notification streams.
pub open spec fn announced_stream_events<N: Network>(out: BehaviourOut<N>) -> Seq<StreamEvent<N>> {
    match out {
        BehaviourOut::NotificationStreamOpened {
            remote,
            protocol,
            negotiated_fallback,
            notifications_sink,
            role,
        } => seq![
            StreamEvent::Opened {
                remote,
                protocol,
                negotiated_fallback,
                sink: notifications_sink,
                is_authority: role is Authority,
                is_full: role is Full,
            },
        ],
        BehaviourOut::NotificationStreamReplaced { remote, protocol, notifications_sink } => seq![
            StreamEvent::Replaced { remote, protocol, sink: notifications_sink },
        ],
        BehaviourOut::NotificationStreamClosed { remote, protocol } => seq![
            StreamEvent::Closed { remote, protocol },
        ],
        _ => Seq::empty(),
    }
}

/// What a call tells the behaviour of notification streams.
pub open spec fn told_stream_events<N: Network>(input: Input<N>) -> Seq<StreamEvent<N>> {
    match input {
        Input::Inject(
            BehaviourEvent::Protocol(
                CustomMessageOutcome::NotificationStreamOpened {
                    remote,
                    protocol,
                    negotiated_fallback,
                    roles,
                    notifications_sink,
                },
            ),
        ) => seq![
            StreamEvent::Opened {
                remote,
                protocol,
                negotiated_fallback,
                sink: notifications_sink,
                is_authority: roles.authority,
                is_full: roles.full && !roles.authority,
            },
        ],
        Input::Inject(
            BehaviourEvent::Protocol(
                CustomMessageOutcome::NotificationStreamReplaced {
                    remote,
                    protocol,
                    notifications_sink,
                },
            ),
        ) => seq![StreamEvent::Replaced { remote, protocol, sink: notifications_sink }],
        Input::Inject(
            BehaviourEvent::Protocol(
                CustomMessageOutcome::NotificationStreamClosed { remote, protocol },
            ),
        ) => seq![StreamEvent::Closed { remote, protocol }],
        _ => Seq::empty(),
    }
}

/// The sink that was last given for the stream with `remote` over `protocol`, by its opening or by
/// a replacement.
pub open spec fn last_sink<N: Network>(
    events: Seq<StreamEvent<N>>,
    remote: PeerId,
    protocol: Seq<char>,
) -> Option<N::NotificationsSink>
    decreases events.len(),
{
    if events.len() == 0 {
        None
    } else {
        match events.last() {
            StreamEvent::Opened { remote: r, protocol: p, sink, .. } if r == remote && p@
                == protocol => Some(sink),
            StreamEvent::Replaced { remote: r, protocol: p, sink } if r == remote && p@
                == protocol => Some(sink),
            _ => last_sink(events.drop_last(), remote, protocol),
        }
    }
}

/// Changes among the sync peers that an announcement tells of.
pub open spec fn announced_sync_changes<N: Network>(out: BehaviourOut<N>) -> Seq<SyncChange> {
    match out {
        BehaviourOut::SyncConnected(peer_id) => seq![SyncChange::Connected(peer_id)],
        BehaviourOut::SyncDisconnected(peer_id) => seq![SyncChange::Disconnected(peer_id)],
        _ => Seq::empty(),
    }
}

/// Changes among the sync peers that a call tells the behaviour of.
pub open spec fn told_sync_changes<N: Network>(input: Input<N>) -> Seq<SyncChange> {
    match input {
        Input::Inject(BehaviourEvent::Protocol(CustomMessageOutcome::SyncConnected(peer_id))) =>
            seq![SyncChange::Connected(peer_id)],
        Input::Inject(BehaviourEvent::Protocol(CustomMessageOutcome::SyncDisconnected(peer_id))) =>
            seq![SyncChange::Disconnected(peer_id)],
        _ => Seq::empty(),
    }
}

/// The random queries that an announcement tells of.
pub open spec fn announced_queries<N: Network>(out: BehaviourOut<N>) -> Seq<N::ProtocolId> {
    match out {
        BehaviourOut::RandomKademliaStarted(protocol) => seq![protocol],
        _ => Seq::empty(),
    }
}

/// The random queries that a call tells the behaviour of.
pub open spec fn told_queries<N: Network>(input: Input<N>) -> Seq<N::ProtocolId> {
    match input {
        Input::Inject(BehaviourEvent::Discovery(DiscoveryOut::RandomKademliaStarted(protocols))) =>
            protocols@,
        _ => Seq::empty(),
    }
}

/// The answers of the hash table that an announcement tells of.
pub open spec fn announced_answers<N: Network>(out: BehaviourOut<N>) -> Seq<(DhtEvent, Duration)> {
    match out {
        BehaviourOut::Dht(answer, duration) => seq![(answer, duration)],
        _ => Seq::empty(),
    }
}

/// The answers of the hash table that a call tells the behaviour of.
pub open spec fn told_answers<N: Network>(input: Input<N>) -> Seq<(DhtEvent, Duration)> {
    match input {
        Input::Inject(BehaviourEvent::Discovery(DiscoveryOut::ValueFound(results, duration))) =>
            seq![(DhtEvent::ValueFound(results), duration)],
        Input::Inject(BehaviourEvent::Discovery(DiscoveryOut::ValueNotFound(key, duration))) =>
            seq![(DhtEvent::ValueNotFound(key), duration)],
        Input::Inject(BehaviourEvent::Discovery(DiscoveryOut::ValuePut(key, duration))) => seq![
            (DhtEvent::ValuePut(key), duration),
        ],
        Input::Inject(BehaviourEvent::Discovery(DiscoveryOut::ValuePutFailed(key, duration))) =>
            seq![(DhtEvent::ValuePutFailed(key), duration)],
        _ => Seq::empty(),
    }
}

/// Where no more than one announcement is made, what is found in all of them is found in that one.
proof fn lemma_gather_few<A, B>(items: Seq<A>, f: spec_fn(A) -> Seq<B>)
    requires
        items.len() <= 1,
    ensures
        items.len() == 0 ==> gather(items, f) == Seq::<B>::empty(),
        items.len() == 1 ==> gather(items, f) == f(items[0]),
{
    if items.len() == 1 {
        lemma_gather_one(items, f);
    }
}

/// Where a call starts random queries, nothing that is not about those is found in what it
/// announces; other calls announce at most one thing.
proof fn lemma_found_in_call<N: Network, T>(
    input: Input<N>,
    out: spec_fn(BehaviourOut<N>) -> Seq<T>,
    told: spec_fn(Input<N>) -> Seq<T>,
)
    requires
        forall|protocol: N::ProtocolId|
            (#[trigger] out(BehaviourOut::RandomKademliaStarted(protocol))).len() == 0,
        announced_by(input).len() == 0 ==> told(input).len() == 0,
        announced_by(input).len() == 1 && !(announced_by(input)[0] is RandomKademliaStarted)
            ==> told(input) == out(announced_by(input)[0]),
        told_queries(input).len() > 0 ==> told(input).len() == 0,
    ensures
        gather(announced_by(input), out) == told(input),
{
    if told_queries(input).len() > 0 {
        lemma_gather_nothing(announced_by(input), out);
    } else {
        lemma_gather_few(announced_by(input), out);
    }
    assert(gather(announced_by(input), out) =~= told(input));
}

/// The imports that were handed out, and then those that wait, are the imports that the protocols
/// reported, in order.
pub proof fn law_every_import_is_kept<N: Network>(names: ProtocolNames, inputs: Seq<Input<N>>)
    ensures
        gather(
            run(names, Seq::empty(), inputs).announced,
            |out: BehaviourOut<N>| announced_imports(out),
        ) + gather(
            run(names, Seq::empty(), inputs).pending,
            |out: BehaviourOut<N>| announced_imports(out),
        ) == gather(inputs, |input: Input<N>| told_imports(input)),
{
    let out = |out: BehaviourOut<N>| announced_imports(out);
    let told = |input: Input<N>| told_imports(input);
    assert forall|i: int| 0 <= i < inputs.len() implies gather(
        announced_by(#[trigger] inputs[i]),
        out,
    ) == told(inputs[i]) by {
        lemma_found_in_call(inputs[i], out, told);
    }
    lemma_kept(names, inputs, out, told);
}

/// The outcomes of requests that were handed out, and then those that wait, are the outcomes that
/// the protocols reported, in order.
pub proof fn law_every_request_outcome_is_kept<N: Network>(
    names: ProtocolNames,
    inputs: Seq<Input<N>>,
)
    ensures
        gather(
            run(names, Seq::empty(), inputs).announced,
            |out: BehaviourOut<N>| announced_outcomes(out),
        ) + gather(
            run(names, Seq::empty(), inputs).pending,
            |out: BehaviourOut<N>| announced_outcomes(out),
        ) == gather(inputs, |input: Input<N>| told_outcomes(input)),
{
    let out = |out: BehaviourOut<N>| announced_outcomes(out);
    let told = |input: Input<N>| told_outcomes(input);
    assert forall|i: int| 0 <= i < inputs.len() implies gather(
        announced_by(#[trigger] inputs[i]),
        out,
    ) == told(inputs[i]) by {
        lemma_found_in_call(inputs[i], out, told);
    }
    lemma_kept(names, inputs, out, told);
}

/// The notifications that were handed out, and then those that wait, are the notifications that
/// were received, in order, each with its sender.
pub proof fn law_every_notification_is_kept<N: Network>(
    names: ProtocolNames,
    inputs: Seq<Input<N>>,
)
    ensures
        gather(
            run(names, Seq::empty(), inputs).announced,
            |out: BehaviourOut<N>| announced_notifications(out),
        ) + gather(
            run(names, Seq::empty(), inputs).pending,
            |out: BehaviourOut<N>| announced_notifications(out),
        ) == gather(inputs, |input: Input<N>| told_notifications(input)),
{
    let out = |out: BehaviourOut<N>| announced_notifications(out);
    let told = |input: Input<N>| told_notifications(input);
    assert forall|i: int| 0 <= i < inputs.len() implies gather(
        announced_by(#[trigger] inputs[i]),
        out,
    ) == told(inputs[i]) by {
        lemma_found_in_call(inputs[i], out, told);
    }
    lemma_kept(names, inputs, out, told);
}

/// What was handed out of notification streams, and then what waits, is what happened to them, in
/// order: openings with the role that the remote reports, replacements of the sink and closings.
pub proof fn law_every_stream_event_is_kept<N: Network>(
    names: ProtocolNames,
    inputs: Seq<Input<N>>,
)
    ensures
        gather(
            run(names, Seq::empty(), inputs).announced,
            |out: BehaviourOut<N>| announced_stream_events(out),
        ) + gather(
            run(names, Seq::empty(), inputs).pending,
            |out: BehaviourOut<N>| announced_stream_events(out),
        ) == gather(inputs, |input: Input<N>| told_stream_events(input)),
{
    let out = |out: BehaviourOut<N>| announced_stream_events(out);
    let told = |input: Input<N>| told_stream_events(input);
    assert forall|i: int| 0 <= i < inputs.len() implies gather(
        announced_by(#[trigger] inputs[i]),
        out,
    ) == told(inputs[i]) by {
        lemma_found_in_call(inputs[i], out, told);
    }
    lemma_kept(names, inputs, out, told);
}

/// Once the queue is empty, the sink that was last announced for a stream is the sink that was last
/// given for it, by its opening or by a replacement.
pub proof fn law_the_announced_sink_is_the_current_one<N: Network>(
    names: ProtocolNames,
    inputs: Seq<Input<N>>,
    remote: PeerId,
    protocol: Seq<char>,
)
    requires
        run(names, Seq::empty(), inputs).pending.len() == 0,
    ensures
        last_sink(
            gather(
                run(names, Seq::empty(), inputs).announced,
                |out: BehaviourOut<N>| announced_stream_events(out),
            ),
            remote,
            protocol,
        ) == last_sink(
            gather(inputs, |input: Input<N>| told_stream_events(input)),
            remote,
            protocol,
        ),
{
    law_every_stream_event_is_kept(names, inputs);
    let out = |out: BehaviourOut<N>| announced_stream_events(out);
    let after = run(names, Seq::empty(), inputs);
    assert(gather(after.announced, out) + gather(after.pending, out) =~= gather(
        after.announced,
        out,
    ));
}

/// The changes among the sync peers that were handed out, and then those that wait, are the changes
/// that the protocols reported, in order.
pub proof fn law_every_sync_change_is_kept<N: Network>(names: ProtocolNames, inputs: Seq<Input<N>>)
    ensures
        gather(
            run(names, Seq::empty(), inputs).announced,
            |out: BehaviourOut<N>| announced_sync_changes(out),
        ) + gather(
            run(names, Seq::empty(), inputs).pending,
            |out: BehaviourOut<N>| announced_sync_changes(out),
        ) == gather(inputs, |input: Input<N>| told_sync_changes(input)),
{
    let out = |out: BehaviourOut<N>| announced_sync_changes(out);
    let told = |input: Input<N>| told_sync_changes(input);
    assert forall|i: int| 0 <= i < inputs.len() implies gather(
        announced_by(#[trigger] inputs[i]),
        out,
    ) == told(inputs[i]) by {
        lemma_found_in_call(inputs[i], out, told);
    }
    lemma_kept(names, inputs, out, told);
}

/// The answers of the hash table that were handed out, and then those that wait, are the answers
/// that the discovery protocol gave, in order, each with the time that it took.
pub proof fn law_every_answer_is_kept<N: Network>(names: ProtocolNames, inputs: Seq<Input<N>>)
    ensures
        gather(
            run(names, Seq::empty(), inputs).announced,
            |out: BehaviourOut<N>| announced_answers(out),
        ) + gather(
            run(names, Seq::empty(), inputs).pending,
            |out: BehaviourOut<N>| announced_answers(out),
        ) == gather(inputs, |input: Input<N>| told_answers(input)),
{
    let out = |out: BehaviourOut<N>| announced_answers(out);
    let told = |input: Input<N>| told_answers(input);
    assert forall|i: int| 0 <= i < inputs.len() implies gather(
        announced_by(#[trigger] inputs[i]),
        out,
    ) == told(inputs[i]) by {
        lemma_found_in_call(inputs[i], out, told);
    }
    lemma_kept(names, inputs, out, told);
}

/// One random query is announced for each instance: what is found in the announcements are the
/// instances.
proof fn lemma_gather_queries<N: Network>(
    announcements: Seq<BehaviourOut<N>>,
    protocols: Seq<N::ProtocolId>,
)
    requires
        announcements.len() == protocols.len(),
        forall|i: int|
            0 <= i < protocols.len() ==> #[trigger] announcements[i]
                == BehaviourOut::<N>::RandomKademliaStarted(protocols[i]),
    ensures
        gather(announcements, |out: BehaviourOut<N>| announced_queries(out)) == protocols,
    decreases protocols.len(),
{
    let out = |out: BehaviourOut<N>| announced_queries(out);
    if protocols.len() > 0 {
        assert forall|i: int| 0 <= i < protocols.drop_last().len() implies
            #[trigger] announcements.drop_last()[i] == BehaviourOut::<N>::RandomKademliaStarted(
            protocols.drop_last()[i],
        ) by {
            assert(announcements.drop_last()[i] == announcements[i]);
        }
        lemma_gather_queries(announcements.drop_last(), protocols.drop_last());
        assert(announcements[protocols.len() - 1] == BehaviourOut::<N>::RandomKademliaStarted(
            protocols[protocols.len() - 1],
        ));
        assert(gather(announcements, out) =~= protocols);
    } else {
        assert(gather(announcements, out) =~= protocols);
    }
}

/// The random queries that were handed out, and then those that wait, are the queries that the
/// discovery protocol started, in order.
pub proof fn law_every_random_query_is_kept<N: Network>(
    names: ProtocolNames,
    inputs: Seq<Input<N>>,
)
    ensures
        gather(
            run(names, Seq::empty(), inputs).announced,
            |out: BehaviourOut<N>| announced_queries(out),
        ) + gather(
            run(names, Seq::empty(), inputs).pending,
            |out: BehaviourOut<N>| announced_queries(out),
        ) == gather(inputs, |input: Input<N>| told_queries(input)),
{
    let out = |out: BehaviourOut<N>| announced_queries(out);
    let told = |input: Input<N>| told_queries(input);
    assert forall|i: int| 0 <= i < inputs.len() implies gather(
        announced_by(#[trigger] inputs[i]),
        out,
    ) == told(inputs[i]) by {
        if told_queries(inputs[i]).len() > 0 {
            lemma_gather_queries(announced_by(inputs[i]), told_queries(inputs[i]));
        } else {
            lemma_gather_few(announced_by(inputs[i]), out);
            assert(gather(announced_by(inputs[i]), out) =~= told(inputs[i]));
        }
    }
    lemma_kept(names, inputs, out, told);
}

} // verus!
