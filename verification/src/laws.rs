//! What holds of the behaviour over several calls.
//!
//! The contracts of [`crate::behaviour::Behaviour`] say what one call does, in terms of the
//! functions of [`crate::routing`]. Here those functions are put one after the other.

use futures::channel::oneshot;
use libp2p::kad::record;
use libp2p::{Multiaddr, PeerId};
use vstd::prelude::*;

use crate::action::{Action, IfDisconnected, PollStep};
use crate::event::{
    BehaviourEvent, BehaviourOut, CustomMessageOutcome, DhtEvent, DiscoveryOut, LightClientPoll,
    OutEvent, PeerInfoEvent, RequestResponsesEvent,
};
use crate::network::Network;
use crate::protocols::{ProtocolConfig, ProtocolNames};

verus! {

/// One call on a behaviour.
pub enum Input<N: Network> {
    /// `inject_event`.
    Inject(BehaviourEvent<N>),
    /// `poll`.
    Poll(LightClientPoll<N>),
    /// `add_known_address`.
    AddKnownAddress(PeerId, Multiaddr),
    /// `send_request`.
    SendRequest {
        /// Peer to ask.
        target: PeerId,
        /// Name of the protocol to ask over.
        protocol: String,
        /// The encoded request.
        request: Vec<u8>,
        /// Where the response goes.
        pending_response: oneshot::Sender<Result<Vec<u8>, N::RequestFailure>>,
        /// What to do if the peer is not connected.
        connect: IfDisconnected,
    },
    /// `get_value`.
    GetValue(record::Key),
    /// `put_value`.
    PutValue(record::Key, Vec<u8>),
}

/// What has come of a sequence of calls on a behaviour.
#[verifier::ext_equal]
pub struct Run<N: Network> {
    /// The announcements that wait in the queue.
    pub pending: Seq<BehaviourOut<N>>,
    /// The announcements that have been handed out, in order.
    pub announced: Seq<BehaviourOut<N>>,
    /// The actions that have been asked for, in order.
    pub performed: Seq<Action<N>>,
}

/// What a behaviour whose queue holds `pending` makes of `inputs`.
pub open spec fn run<N: Network>(
    names: ProtocolNames,
    pending: Seq<BehaviourOut<N>>,
    inputs: Seq<Input<N>>,
) -> Run<N>
    decreases inputs.len(),
{
    if inputs.len() == 0 {
        Run { pending, announced: Seq::empty(), performed: Seq::empty() }
    } else {
        step(names, run(names, pending, inputs.drop_last()), inputs.last())
    }
}

/// What one more call adds.
pub open spec fn step<N: Network>(names: ProtocolNames, before: Run<N>, input: Input<N>) -> Run<N> {
    match input {
        Input::Inject(event) => Run {
            pending: before.pending + crate::routing::announcements(event),
            announced: before.announced,
            performed: before.performed + crate::routing::actions(names, event),
        },
        Input::Poll(light_client) => {
            let pending = crate::routing::pending_after_poll(before.pending, light_client);
            match crate::routing::poll_step(before.pending, light_client) {
                PollStep::Perform(action) => Run {
                    pending,
                    announced: before.announced,
                    performed: before.performed.push(action),
                },
                PollStep::GenerateEvent(event) => Run {
                    pending,
                    announced: before.announced.push(event),
                    performed: before.performed,
                },
                PollStep::Pending => Run { pending, ..before },
            }
        },
        Input::AddKnownAddress(peer_id, addr) => Run {
            performed: before.performed.push(Action::AddKnownAddress { peer_id, addr }),
            ..before
        },
        Input::SendRequest { target, protocol, request, pending_response, connect } => Run {
            performed: before.performed.push(
                Action::SendRequest { target, protocol, request, pending_response, connect },
            ),
            ..before
        },
        Input::GetValue(key) => Run {
            performed: before.performed.push(Action::GetValue(key)),
            ..before
        },
        Input::PutValue(key, value) => Run {
            performed: before.performed.push(Action::PutValue(key, value)),
            ..before
        },
    }
}

/// All that `inputs` announce, in order.
pub open spec fn queued<N: Network>(inputs: Seq<Input<N>>) -> Seq<BehaviourOut<N>>
    decreases inputs.len(),
{
    if inputs.len() == 0 {
        Seq::empty()
    } else {
        match inputs.last() {
            Input::Inject(event) => queued(inputs.drop_last()) + crate::routing::announcements(
                event,
            ),
            _ => queued(inputs.drop_last()),
        }
    }
}

/// Nothing is lost, made up, repeated or put out of order: what has been handed out, followed by
/// what still waits, is what waited at first, followed by all that was announced since.
pub proof fn law_every_announcement_is_kept<N: Network>(
    names: ProtocolNames,
    pending: Seq<BehaviourOut<N>>,
    inputs: Seq<Input<N>>,
)
    ensures
        run(names, pending, inputs).announced + run(names, pending, inputs).pending == pending
            + queued(inputs),
    decreases inputs.len(),
{
    if inputs.len() > 0 {
        law_every_announcement_is_kept(names, pending, inputs.drop_last());
        let before = run(names, pending, inputs.drop_last());
        let after = run(names, pending, inputs);
        match inputs.last() {
            Input::Inject(event) => {
                assert(after.announced + after.pending =~= (before.announced + before.pending)
                    + crate::routing::announcements(event));
            },
            _ => {
                assert(after.announced + after.pending =~= before.announced + before.pending);
            },
        }
    } else {
        assert(run(names, pending, inputs).announced + pending =~= pending + queued(inputs));
    }
}

/// Announcements come out in the order in which they went in: those handed out are the first ones.
pub proof fn law_announcements_come_out_in_order<N: Network>(
    names: ProtocolNames,
    pending: Seq<BehaviourOut<N>>,
    inputs: Seq<Input<N>>,
)
    ensures
        run(names, pending, inputs).announced.is_prefix_of(pending + queued(inputs)),
{
    law_every_announcement_is_kept(names, pending, inputs);
    let after = run(names, pending, inputs);
    assert(after.announced =~= (pending + queued(inputs)).take(after.announced.len() as int));
}

/// A poll has nothing to do exactly when the light client wants nothing and the queue is empty.
pub proof fn law_a_poll_is_pending_only_when_there_is_nothing_to_do<N: Network>(
    pending: Seq<BehaviourOut<N>>,
    light_client: LightClientPoll<N>,
)
    ensures
        crate::routing::poll_step(pending, light_client) is Pending <==> pending.len() == 0 && !(
        light_client is Ready),
{
}

/// The light client comes first: as long as it wants requests sent, no announcement leaves the
/// queue, and every poll sends the request that it was given.
pub proof fn law_light_client_requests_come_before_announcements<N: Network>(
    pending: Seq<BehaviourOut<N>>,
    light_client: LightClientPoll<N>,
)
    requires
        light_client is Ready,
    ensures
        light_client matches LightClientPoll::Ready(
            OutEvent::SendRequest { target, request, pending_response, protocol_name },
        ) && crate::routing::poll_step(pending, light_client) == PollStep::<N>::Perform(
            Action::SendRequest {
                target,
                protocol: protocol_name,
                request,
                pending_response,
                connect: IfDisconnected::ImmediateError,
            },
        ),
        crate::routing::pending_after_poll(pending, light_client) == pending,
{
}

/// Whether an action leaves the connections of the node as they are: it sends no request that
/// would have the node connect to the peer.
pub open spec fn opens_no_connection<N: Network>(action: Action<N>) -> bool {
    action matches Action::SendRequest { connect, .. } ==> connect == IfDisconnected::ImmediateError
}

/// Whether the call is a `send_request` that the action answers.
pub open spec fn is_call_for<N: Network>(input: Input<N>, action: Action<N>) -> bool {
    input matches Input::SendRequest { target, protocol, request, pending_response, connect }
        && action == (Action::<N>::SendRequest {
        target,
        protocol,
        request,
        pending_response,
        connect,
    })
}

/// Whether one of the calls is a `send_request` that the action answers.
pub open spec fn is_called_for<N: Network>(inputs: Seq<Input<N>>, action: Action<N>) -> bool {
    exists|j: int| 0 <= j < inputs.len() && is_call_for(#[trigger] inputs[j], action)
}

/// The requests that the behaviour sends on its own account, those for blocks and state and those
/// of the light client, never have the node connect to a peer: a request that does is one that a
/// caller of `send_request` wanted so.
pub proof fn law_own_requests_open_no_connection<N: Network>(
    names: ProtocolNames,
    pending: Seq<BehaviourOut<N>>,
    inputs: Seq<Input<N>>,
)
    ensures
        forall|i: int|
            0 <= i < run(names, pending, inputs).performed.len() ==> opens_no_connection(
                #[trigger] run(names, pending, inputs).performed[i],
            ) || is_called_for(inputs, run(names, pending, inputs).performed[i]),
    decreases inputs.len(),
{
    if inputs.len() > 0 {
        law_own_requests_open_no_connection(names, pending, inputs.drop_last());
        let before = run(names, pending, inputs.drop_last());
        let after = run(names, pending, inputs);
        assert forall|i: int| 0 <= i < after.performed.len() implies opens_no_connection(
            #[trigger] after.performed[i],
        ) || is_called_for(inputs, after.performed[i]) by {
            if i < before.performed.len() {
                assert(after.performed[i] == before.performed[i]);
                if !opens_no_connection(before.performed[i]) {
                    let j = choose|j: int|
                        0 <= j < inputs.drop_last().len() && is_call_for(
                            #[trigger] inputs.drop_last()[j],
                            before.performed[i],
                        );
                    assert(inputs[j] == inputs.drop_last()[j]);
                }
            } else if let Input::Inject(event) = inputs.last() {
                assert(after.performed[i] == crate::routing::actions(names, event)[i
                    - before.performed.len()]);
            } else {
                assert(inputs[inputs.len() - 1] == inputs.last());
            }
        }
    }
}

/// A request that the synchronisation protocol wants sent goes to the peer that it names, over the
/// protocol that is configured for that kind of request, and is the only thing that the event
/// leads to; if it could not be encoded, the event leads to nothing at all.
pub proof fn law_requests_are_sent_once_or_dropped<N: Network>(
    names: ProtocolNames,
    event: CustomMessageOutcome<N>,
)
    requires
        event is BlockRequest || event is StateRequest,
    ensures
        crate::routing::protocol_announcements(event) == Seq::<BehaviourOut<N>>::empty(),
        event matches CustomMessageOutcome::BlockRequest { target, request, pending_response } ==> (
        match request {
            Ok(request) => crate::routing::protocol_actions(names, event) == seq![
                Action::<N>::SendRequest {
                    target,
                    protocol: names.block_request_protocol_name,
                    request,
                    pending_response,
                    connect: IfDisconnected::ImmediateError,
                },
            ],
            Err(_) => crate::routing::protocol_actions(names, event) == Seq::<Action<N>>::empty(),
        }),
        event matches CustomMessageOutcome::StateRequest { target, request, pending_response } ==> (
        match request {
            Ok(request) => crate::routing::protocol_actions(names, event) == seq![
                Action::<N>::SendRequest {
                    target,
                    protocol: names.state_request_protocol_name,
                    request,
                    pending_response,
                    connect: IfDisconnected::ImmediateError,
                },
            ],
            Err(_) => crate::routing::protocol_actions(names, event) == Seq::<Action<N>>::empty(),
        }),
{
}

/// However many addresses a node reports, no more than the limit are passed on, and they are the
/// first ones that it reported; the node itself becomes known in any case, after its addresses.
pub proof fn law_identification_passes_on_a_bounded_prefix<N: Network>(event: PeerInfoEvent)
    ensures
        event matches PeerInfoEvent::Identified { peer_id: peer, info } ==> {
            let actions = crate::routing::peer_info_actions::<N>(event);
            &&& 1 <= actions.len() <= crate::routing::MAX_REPORTED_ADDRESSES + 1
            &&& actions.len() <= info.listen_addrs@.len() + 1
            &&& info.listen_addrs@.len() <= crate::routing::MAX_REPORTED_ADDRESSES ==> actions.len()
                == info.listen_addrs@.len() + 1
            &&& info.listen_addrs@.len() > crate::routing::MAX_REPORTED_ADDRESSES ==> actions.len()
                == crate::routing::MAX_REPORTED_ADDRESSES + 1
            &&& forall|i: int|
                0 <= i < actions.len() - 1 ==> #[trigger] actions[i]
                    == (Action::<N>::AddSelfReportedAddress {
                    peer_id: peer,
                    protocols: info.protocols,
                    addr: info.listen_addrs@[i],
                })
            &&& actions.last() == Action::<N>::AddDefaultSetDiscoveredNode(peer)
        },
{
}

/// A batch of reputation changes is reported change by change, in order, of the same peer.
pub proof fn law_reputation_changes_are_reported_one_by_one<N: Network>(
    event: RequestResponsesEvent<N>,
)
    ensures
        event matches RequestResponsesEvent::ReputationChanges { peer, changes } ==> {
            let actions = crate::routing::request_responses_actions(event);
            &&& actions.len() == changes@.len()
            &&& forall|i: int|
                0 <= i < actions.len() ==> #[trigger] actions[i] == (Action::<N>::ReportPeer {
                    peer,
                    change: changes@[i],
                })
            &&& crate::routing::request_responses_announcements(event) == Seq::<
                BehaviourOut<N>,
            >::empty()
        },
{
}

/// Every answer that the discovery protocol has to a `get_value` or a `put_value` is announced,
/// once, with the time that it took, and leads to nothing else.
pub proof fn law_answers_of_the_hash_table_are_announced<N: Network>(event: DiscoveryOut<N>)
    requires
        event is ValueFound || event is ValueNotFound || event is ValuePut
            || event is ValuePutFailed,
    ensures
        crate::routing::discovery_actions(event) == Seq::<Action<N>>::empty(),
        crate::routing::discovery_announcements(event).len() == 1,
        crate::routing::discovery_announcements(event)[0] matches BehaviourOut::Dht(answer, time)
            && match event {
            DiscoveryOut::ValueFound(results, duration) => answer
                == DhtEvent::ValueFound(results) && time == duration,
            DiscoveryOut::ValueNotFound(key, duration) => answer
                == DhtEvent::ValueNotFound(key) && time == duration,
            DiscoveryOut::ValuePut(key, duration) => answer == DhtEvent::ValuePut(key)
                && time == duration,
            DiscoveryOut::ValuePutFailed(key, duration) => answer
                == DhtEvent::ValuePutFailed(key) && time == duration,
            _ => false,
        },
{
}

/// Whatever holds of all that the events announce holds of all that has been handed out.
pub proof fn law_facts_of_events_hold_of_announcements<N: Network>(
    names: ProtocolNames,
    inputs: Seq<Input<N>>,
    fact: spec_fn(BehaviourOut<N>) -> bool,
)
    requires
        forall|i: int| 0 <= i < queued(inputs).len() ==> fact(#[trigger] queued(inputs)[i]),
    ensures
        forall|i: int|
            0 <= i < run(names, Seq::empty(), inputs).announced.len() ==> fact(
                #[trigger] run(names, Seq::empty(), inputs).announced[i],
            ),
{
    law_every_announcement_is_kept(names, Seq::empty(), inputs);
    let after = run(names, Seq::empty(), inputs);
    assert(Seq::<BehaviourOut<N>>::empty() + queued(inputs) =~= queued(inputs));
    assert forall|i: int| 0 <= i < after.announced.len() implies fact(
        #[trigger] after.announced[i],
    ) by {
        assert(after.announced[i] == (after.announced + after.pending)[i]);
        assert(fact(queued(inputs)[i]));
    }
}

/// Whatever holds of what each event announces holds of all that the events announce.
proof fn lemma_queued_all<N: Network>(
    inputs: Seq<Input<N>>,
    fact: spec_fn(BehaviourOut<N>) -> bool,
)
    requires
        forall|j: int|
            0 <= j < inputs.len() ==> (#[trigger] inputs[j] matches Input::Inject(event)
                ==> all_announcements(event, fact)),
    ensures
        forall|i: int| 0 <= i < queued(inputs).len() ==> fact(#[trigger] queued(inputs)[i]),
    decreases inputs.len(),
{
    if inputs.len() > 0 {
        let rest = inputs.drop_last();
        assert forall|j: int| 0 <= j < rest.len() implies (#[trigger] rest[j] matches Input::Inject(
            event,
        ) ==> all_announcements(event, fact)) by {
            assert(rest[j] == inputs[j]);
        }
        lemma_queued_all(rest, fact);
        if let Input::Inject(event) = inputs[inputs.len() - 1] {
            let announcements = crate::routing::announcements(event);
            assert(all_announcements(event, fact));
            assert forall|i: int| 0 <= i < queued(inputs).len() implies fact(
                #[trigger] queued(inputs)[i],
            ) by {
                if i < queued(rest).len() {
                    assert(queued(inputs)[i] == queued(rest)[i]);
                } else {
                    assert(queued(inputs)[i] == announcements[i - queued(rest).len()]);
                }
            }
        }
    }
}

/// Whether `fact` holds of all that the event announces.
pub open spec fn all_announcements<N: Network>(
    event: BehaviourEvent<N>,
    fact: spec_fn(BehaviourOut<N>) -> bool,
) -> bool {
    forall|i: int|
        0 <= i < crate::routing::announcements(event).len() ==> fact(
            #[trigger] crate::routing::announcements(event)[i],
        )
}

/// The protocol of a stream that is announced as opened is always one of the notification
/// protocols that have been registered, provided that the protocols open only such streams.
pub proof fn law_announced_streams_are_of_registered_protocols<N: Network>(
    names: ProtocolNames,
    inputs: Seq<Input<N>>,
    registered: Set<Seq<char>>,
)
    requires
        forall|j: int|
            0 <= j < inputs.len() ==> (#[trigger] inputs[j] matches Input::Inject(
                BehaviourEvent::Protocol(
                    CustomMessageOutcome::NotificationStreamOpened { protocol, .. },
                ),
            ) ==> registered.contains(protocol@)),
    ensures
        forall|i: int|
            0 <= i < run(names, Seq::empty(), inputs).announced.len() ==> (#[trigger] run(
                names,
                Seq::empty(),
                inputs,
            ).announced[i] matches BehaviourOut::NotificationStreamOpened { protocol, .. }
                ==> registered.contains(protocol@)),
{
    let fact = |out: BehaviourOut<N>|
        out matches BehaviourOut::NotificationStreamOpened { protocol, .. } ==> registered.contains(
            protocol@,
        );
    lemma_queued_all(inputs, fact);
    law_facts_of_events_hold_of_announcements(names, inputs, fact);
    let announced = run(names, Seq::empty(), inputs).announced;
    assert forall|i: int| 0 <= i < announced.len() implies (
    #[trigger] announced[i] matches BehaviourOut::NotificationStreamOpened { protocol, .. }
        ==> registered.contains(protocol@)) by {
        assert(fact(announced[i]));
    }
}

/// Received notifications are announced with one or more messages, provided that the protocols
/// report none without.
pub proof fn law_announced_notifications_hold_messages<N: Network>(
    names: ProtocolNames,
    inputs: Seq<Input<N>>,
)
    requires
        forall|j: int|
            0 <= j < inputs.len() ==> (#[trigger] inputs[j] matches Input::Inject(
                BehaviourEvent::Protocol(
                    CustomMessageOutcome::NotificationsReceived { messages, .. },
                ),
            ) ==> messages@.len() >= 1),
    ensures
        forall|i: int|
            0 <= i < run(names, Seq::empty(), inputs).announced.len() ==> (#[trigger] run(
                names,
                Seq::empty(),
                inputs,
            ).announced[i] matches BehaviourOut::NotificationsReceived { messages, .. }
                ==> messages@.len() >= 1),
{
    let fact = |out: BehaviourOut<N>|
        out matches BehaviourOut::NotificationsReceived { messages, .. } ==> messages@.len() >= 1;
    lemma_queued_all(inputs, fact);
    law_facts_of_events_hold_of_announcements(names, inputs, fact);
    let announced = run(names, Seq::empty(), inputs).announced;
    assert forall|i: int| 0 <= i < announced.len() implies (
    #[trigger] announced[i] matches BehaviourOut::NotificationsReceived { messages, .. }
        ==> messages@.len() >= 1) by {
        assert(fact(announced[i]));
    }
}

/// A change of the set of peers that the node is connected to for syncing purposes.
pub enum SyncChange {
    /// The peer has connected.
    Connected(PeerId),
    /// The peer has disconnected.
    Disconnected(PeerId),
}

/// The change that an announcement tells of.
pub open spec fn announced_sync_change<N: Network>(event: BehaviourOut<N>) -> Option<SyncChange> {
    match event {
        BehaviourOut::SyncConnected(peer_id) => Some(SyncChange::Connected(peer_id)),
        BehaviourOut::SyncDisconnected(peer_id) => Some(SyncChange::Disconnected(peer_id)),
        _ => None,
    }
}

/// The change that an action tells the light client's request sender of.
pub open spec fn injected_sync_change<N: Network>(action: Action<N>) -> Option<SyncChange> {
    match action {
        Action::InjectConnected(peer_id) => Some(SyncChange::Connected(peer_id)),
        Action::InjectDisconnected(peer_id) => Some(SyncChange::Disconnected(peer_id)),
        _ => None,
    }
}

/// An opening or a closing of a notification stream.
pub struct StreamChange {
    /// Whether the stream was opened; otherwise it was closed.
    pub opened: bool,
    /// The node at the other end.
    pub remote: PeerId,
    /// The name of the protocol.
    pub protocol: Seq<char>,
}

/// The opening or closing that an announcement tells of.
pub open spec fn announced_stream_change<N: Network>(event: BehaviourOut<N>) -> Option<
    StreamChange,
> {
    match event {
        BehaviourOut::NotificationStreamOpened { remote, protocol, .. } => Some(
            StreamChange { opened: true, remote, protocol: protocol@ },
        ),
        BehaviourOut::NotificationStreamClosed { remote, protocol } => Some(
            StreamChange { opened: false, remote, protocol: protocol@ },
        ),
        _ => None,
    }
}

/// The opening or closing that a call tells the behaviour of.
pub open spec fn injected_stream_change<N: Network>(input: Input<N>) -> Option<StreamChange> {
    match input {
        Input::Inject(
            BehaviourEvent::Protocol(
                CustomMessageOutcome::NotificationStreamOpened { remote, protocol, .. },
            ),
        ) => Some(StreamChange { opened: true, remote, protocol: protocol@ }),
        Input::Inject(
            BehaviourEvent::Protocol(
                CustomMessageOutcome::NotificationStreamClosed { remote, protocol },
            ),
        ) => Some(StreamChange { opened: false, remote, protocol: protocol@ }),
        _ => None,
    }
}

/// What `f` makes of the items of `items`, in order, leaving out those that it makes nothing of.
pub open spec fn collect<A, B>(items: Seq<A>, f: spec_fn(A) -> Option<B>) -> Seq<B>
    decreases items.len(),
{
    if items.len() == 0 {
        Seq::empty()
    } else {
        match f(items.last()) {
            Some(item) => collect(items.drop_last(), f).push(item),
            None => collect(items.drop_last(), f),
        }
    }
}

/// `collect` goes through the parts of a sequence one after the other.
proof fn lemma_collect_concat<A, B>(left: Seq<A>, right: Seq<A>, f: spec_fn(A) -> Option<B>)
    ensures
        collect(left + right, f) == collect(left, f) + collect(right, f),
    decreases right.len(),
{
    if right.len() == 0 {
        assert(left + right =~= left);
    } else {
        lemma_collect_concat(left, right.drop_last(), f);
        assert((left + right).drop_last() =~= left + right.drop_last());
        assert((left + right).last() == right.last());
    }
}

/// Where `f` makes nothing of any item, nothing is collected.
proof fn lemma_collect_nothing<A, B>(items: Seq<A>, f: spec_fn(A) -> Option<B>)
    requires
        forall|i: int| 0 <= i < items.len() ==> f(#[trigger] items[i]) is None,
    ensures
        collect(items, f) == Seq::<B>::empty(),
    decreases items.len(),
{
    if items.len() > 0 {
        assert(f(items[items.len() - 1]) is None);
        assert forall|i: int| 0 <= i < items.drop_last().len() implies f(
            #[trigger] items.drop_last()[i],
        ) is None by {
            assert(items.drop_last()[i] == items[i]);
        }
        lemma_collect_nothing(items.drop_last(), f);
    }
}

/// The action, if it sends a request.
pub open spec fn sent_request<N: Network>(action: Action<N>) -> Option<Action<N>> {
    if action is SendRequest {
        Some(action)
    } else {
        None
    }
}

/// The request that a call wants sent: the one for blocks or state that the synchronisation
/// protocol could encode, the one of the light client, or the one that `send_request` was given.
pub open spec fn wanted_request<N: Network>(names: ProtocolNames, input: Input<N>) -> Option<
    Action<N>,
> {
    match input {
        Input::Inject(
            BehaviourEvent::Protocol(
                CustomMessageOutcome::BlockRequest { target, request: Ok(request), pending_response },
            ),
        ) => Some(
            Action::SendRequest {
                target,
                protocol: names.block_request_protocol_name,
                request,
                pending_response,
                connect: IfDisconnected::ImmediateError,
            },
        ),
        Input::Inject(
            BehaviourEvent::Protocol(
                CustomMessageOutcome::StateRequest { target, request: Ok(request), pending_response },
            ),
        ) => Some(
            Action::SendRequest {
                target,
                protocol: names.state_request_protocol_name,
                request,
                pending_response,
                connect: IfDisconnected::ImmediateError,
            },
        ),
        Input::Poll(
            LightClientPoll::Ready(
                OutEvent::SendRequest { target, request, pending_response, protocol_name },
            ),
        ) => Some(
            Action::SendRequest {
                target,
                protocol: protocol_name,
                request,
                pending_response,
                connect: IfDisconnected::ImmediateError,
            },
        ),
        Input::SendRequest { target, protocol, request, pending_response, connect } => Some(
            Action::SendRequest { target, protocol, request, pending_response, connect },
        ),
        _ => None,
    }
}

/// Every request that is wanted is sent, once, in the order in which they were wanted, and no
/// other request is sent.
pub proof fn law_every_wanted_request_is_sent<N: Network>(
    names: ProtocolNames,
    pending: Seq<BehaviourOut<N>>,
    inputs: Seq<Input<N>>,
)
    ensures
        collect(run(names, pending, inputs).performed, |action: Action<N>| sent_request(action))
            == collect(inputs, |input: Input<N>| wanted_request(names, input)),
    decreases inputs.len(),
{
    let sent = |action: Action<N>| sent_request(action);
    if inputs.len() > 0 {
        law_every_wanted_request_is_sent(names, pending, inputs.drop_last());
        let before = run(names, pending, inputs.drop_last());
        match inputs.last() {
            Input::Inject(event) => {
                let actions = crate::routing::actions(names, event);
                lemma_collect_concat(before.performed, actions, sent);
                match event {
                    BehaviourEvent::Protocol(_) => {
                        reveal_with_fuel(collect, 2);
                    },
                    _ => {
                        lemma_collect_nothing(actions, sent);
                    },
                }
            },
            _ => {
                let performed = run(names, pending, inputs).performed;
                if performed.len() > before.performed.len() {
                    assert(performed.drop_last() =~= before.performed);
                }
            },
        }
    }
}

/// The light client's request sender is told of connections and disconnections exactly as they are
/// announced: the same ones, in the same order.
pub proof fn law_light_client_knows_the_announced_connections<N: Network>(
    names: ProtocolNames,
    pending: Seq<BehaviourOut<N>>,
    inputs: Seq<Input<N>>,
)
    ensures
        collect(
            run(names, pending, inputs).performed,
            |action: Action<N>| injected_sync_change(action),
        ) == collect(queued(inputs), |event: BehaviourOut<N>| announced_sync_change(event)),
    decreases inputs.len(),
{
    let injected = |action: Action<N>| injected_sync_change(action);
    let announced = |event: BehaviourOut<N>| announced_sync_change(event);
    if inputs.len() > 0 {
        law_light_client_knows_the_announced_connections(names, pending, inputs.drop_last());
        let before = run(names, pending, inputs.drop_last());
        match inputs.last() {
            Input::Inject(event) => {
                let actions = crate::routing::actions(names, event);
                let announcements = crate::routing::announcements(event);
                lemma_collect_concat(before.performed, actions, injected);
                lemma_collect_concat(queued(inputs.drop_last()), announcements, announced);
                match event {
                    BehaviourEvent::Protocol(_) => {
                        reveal_with_fuel(collect, 2);
                        assert(collect(actions, injected) =~= collect(announcements, announced));
                    },
                    _ => {
                        lemma_collect_nothing(actions, injected);
                        lemma_collect_nothing(announcements, announced);
                    },
                }
            },
            _ => {
                let performed = run(names, pending, inputs).performed;
                if performed.len() > before.performed.len() {
                    assert(performed.drop_last() =~= before.performed);
                }
            },
        }
    }
}

/// What is announced of notification streams is what the behaviour was told of them.
proof fn lemma_queued_stream_changes<N: Network>(inputs: Seq<Input<N>>)
    ensures
        collect(queued(inputs), |event: BehaviourOut<N>| announced_stream_change(event)) == collect(
            inputs,
            |input: Input<N>| injected_stream_change(input),
        ),
    decreases inputs.len(),
{
    let announced = |event: BehaviourOut<N>| announced_stream_change(event);
    if inputs.len() > 0 {
        lemma_queued_stream_changes(inputs.drop_last());
        if let Input::Inject(event) = inputs.last() {
            let announcements = crate::routing::announcements(event);
            lemma_collect_concat(queued(inputs.drop_last()), announcements, announced);
            match event {
                BehaviourEvent::Protocol(_) => {
                    reveal_with_fuel(collect, 2);
                },
                _ => {
                    lemma_collect_nothing(announcements, announced);
                },
            }
        }
    }
}

/// Whether every closing comes after an opening of the same stream, with no other closing of it in
/// between.
pub open spec fn closings_match_openings(changes: Seq<StreamChange>) -> bool {
    forall|i: int|
        0 <= i < changes.len() && !(#[trigger] changes[i]).opened ==> closing_is_matched(changes, i)
}

/// Whether the `i`th change has an opening of the same stream before it, with no closing of that
/// stream in between.
pub open spec fn closing_is_matched(changes: Seq<StreamChange>, i: int) -> bool {
    exists|j: int|
        0 <= j < i && #[trigger] changes[j] == (StreamChange { opened: true, ..changes[i] })
            && forall|k: int| j < k < i ==> #[trigger] changes[k] != changes[i]
}

/// A closing of a notification stream that is announced always matches an opening that was
/// announced before it, provided that the protocols report it so.
pub proof fn law_announced_closings_match_openings<N: Network>(
    names: ProtocolNames,
    inputs: Seq<Input<N>>,
)
    requires
        closings_match_openings(
            collect(inputs, |input: Input<N>| injected_stream_change(input)),
        ),
    ensures
        closings_match_openings(
            collect(
                run(names, Seq::empty(), inputs).announced,
                |event: BehaviourOut<N>| announced_stream_change(event),
            ),
        ),
{
    let announced = |event: BehaviourOut<N>| announced_stream_change(event);
    let after = run(names, Seq::empty(), inputs);
    law_every_announcement_is_kept(names, Seq::empty(), inputs);
    assert(Seq::<BehaviourOut<N>>::empty() + queued(inputs) =~= queued(inputs));
    lemma_collect_concat(after.announced, after.pending, announced);
    lemma_queued_stream_changes(inputs);
    let all = collect(queued(inputs), announced);
    let changes = collect(after.announced, announced);
    assert forall|i: int| 0 <= i < changes.len() && !(#[trigger] changes[i]).opened implies
        closing_is_matched(changes, i) by {
        assert(all[i] == changes[i]);
        assert(closing_is_matched(all, i));
        let j = choose|j: int|
            0 <= j < i && #[trigger] all[j] == (StreamChange { opened: true, ..all[i] })
                && forall|k: int| j < k < i ==> #[trigger] all[k] != all[i];
        assert(changes[j] == all[j]);
        assert forall|k: int| j < k < i implies #[trigger] changes[k] != changes[i] by {
            assert(all[k] == changes[k]);
        }
    }
}

/// The protocols over which the behaviour sends requests, and the one for the light client's, are
/// all registered, in this order, after those that the node adds, which keep their order too.
pub proof fn law_own_protocols_are_registered<N: Network>(
    block_request_protocol_config: ProtocolConfig<N>,
    state_request_protocol_config: ProtocolConfig<N>,
    light_client_request_protocol_config: ProtocolConfig<N>,
    request_response_protocols: Seq<ProtocolConfig<N>>,
)
    ensures
        ({
            let all = crate::protocols::all_protocols(
                block_request_protocol_config,
                state_request_protocol_config,
                light_client_request_protocol_config,
                request_response_protocols,
            );
            &&& all.contains(block_request_protocol_config)
            &&& all.contains(state_request_protocol_config)
            &&& all.contains(light_client_request_protocol_config)
            &&& all[all.len() - 3] == block_request_protocol_config
            &&& all[all.len() - 2] == state_request_protocol_config
            &&& all[all.len() - 1] == light_client_request_protocol_config
            &&& request_response_protocols.is_prefix_of(all)
            &&& all.len() == request_response_protocols.len() + 3
        }),
{
    let all = crate::protocols::all_protocols(
        block_request_protocol_config,
        state_request_protocol_config,
        light_client_request_protocol_config,
        request_response_protocols,
    );
    let len = request_response_protocols.len() as int;
    assert(all[len] == block_request_protocol_config);
    assert(all[len + 1] == state_request_protocol_config);
    assert(all[len + 2] == light_client_request_protocol_config);
    assert(all.take(len) =~= request_response_protocols);
}

} // verus!
