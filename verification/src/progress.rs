//! That what is announced is handed out, as long as the behaviour is polled.

use libp2p::kad::record;
use vstd::prelude::*;

use crate::action::{Action, PollStep};
use crate::event::{BehaviourEvent, BehaviourOut, DhtEvent, DiscoveryOut};
use crate::laws::{law_every_announcement_is_kept, queued, run, Input};
use crate::network::Network;
use crate::protocols::ProtocolNames;

verus! {

/// Whether the call is a poll at which the light client wants nothing: the one that ends a round
/// of polling.
pub open spec fn is_idle_poll<N: Network>(input: Input<N>) -> bool {
    input matches Input::Poll(light_client) && !(light_client is Ready)
}

/// How many of the calls are polls at which the light client wants nothing.
pub open spec fn idle_polls<N: Network>(inputs: Seq<Input<N>>) -> nat
    decreases inputs.len(),
{
    if inputs.len() == 0 {
        0
    } else if is_idle_poll(inputs.last()) {
        idle_polls(inputs.drop_last()) + 1
    } else {
        idle_polls(inputs.drop_last())
    }
}

/// The smaller of two numbers.
pub open spec fn smaller(a: nat, b: nat) -> nat {
    if a <= b {
        a
    } else {
        b
    }
}

/// Every idle poll hands out an announcement, as long as one of those that waited at first is left:
/// whatever else is called in between, after as many idle polls as there were announcements all of
/// them have been handed out, and after fewer at least that many.
pub proof fn law_idle_polls_hand_out_what_waited<N: Network>(
    names: ProtocolNames,
    pending: Seq<BehaviourOut<N>>,
    inputs: Seq<Input<N>>,
)
    ensures
        run(names, pending, inputs).announced.len() >= smaller(idle_polls(inputs), pending.len()),
        pending.take(smaller(idle_polls(inputs), pending.len()) as int).is_prefix_of(
            run(names, pending, inputs).announced,
        ),
    decreases inputs.len(),
{
    let after = run(names, pending, inputs);
    if inputs.len() > 0 {
        law_idle_polls_hand_out_what_waited(names, pending, inputs.drop_last());
        law_every_announcement_is_kept(names, pending, inputs.drop_last());
        let before = run(names, pending, inputs.drop_last());
        assert((before.announced + before.pending).len() == (pending + queued(
            inputs.drop_last(),
        )).len());
    }
    law_every_announcement_is_kept(names, pending, inputs);
    let count = smaller(idle_polls(inputs), pending.len()) as int;
    assert forall|i: int| 0 <= i < count implies pending[i] == after.announced[i] by {
        assert((after.announced + after.pending)[i] == (pending + queued(inputs))[i]);
    }
    assert(pending.take(count) =~= after.announced.take(count));
}

/// Polling alone hands out what waited, in order, and nothing else: one announcement at each poll
/// at which the light client wants nothing, and none at the others.
pub proof fn law_polling_empties_the_queue<N: Network>(
    names: ProtocolNames,
    pending: Seq<BehaviourOut<N>>,
    inputs: Seq<Input<N>>,
)
    requires
        forall|i: int| 0 <= i < inputs.len() ==> #[trigger] inputs[i] is Poll,
    ensures
        run(names, pending, inputs).announced == pending.take(
            smaller(idle_polls(inputs), pending.len()) as int,
        ),
        run(names, pending, inputs).pending == pending.skip(
            smaller(idle_polls(inputs), pending.len()) as int,
        ),
    decreases inputs.len(),
{
    if inputs.len() > 0 {
        assert(inputs[inputs.len() - 1] is Poll);
        assert forall|i: int| 0 <= i < inputs.drop_last().len() implies
            #[trigger] inputs.drop_last()[i] is Poll by {
            assert(inputs.drop_last()[i] == inputs[i]);
        }
        law_polling_empties_the_queue(names, pending, inputs.drop_last());
    }
    let count = smaller(idle_polls(inputs), pending.len()) as int;
    let after = run(names, pending, inputs);
    assert(after.announced =~= pending.take(count));
    assert(after.pending =~= pending.skip(count));
}

/// The first `n` of an endless sequence of calls.
pub open spec fn first<N: Network>(calls: spec_fn(nat) -> Input<N>, n: nat) -> Seq<Input<N>> {
    Seq::new(n, |i: int| calls(i as nat))
}

/// Whether there is a poll, at the `n`th call or later, at which the light client wants nothing.
pub open spec fn is_polled_from<N: Network>(calls: spec_fn(nat) -> Input<N>, n: nat) -> bool {
    exists|m: nat| n <= m && is_idle_poll(#[trigger] calls(m))
}

/// Whether the behaviour keeps being polled: there is always a further round of polling that comes
/// to its end.
pub open spec fn keeps_being_polled<N: Network>(calls: spec_fn(nat) -> Input<N>) -> bool {
    forall|n: nat| #[trigger] is_polled_from(calls, n)
}

/// What the `n`th call hands out, if it is a poll that hands something out.
pub open spec fn handed_out<N: Network>(
    names: ProtocolNames,
    pending: Seq<BehaviourOut<N>>,
    calls: spec_fn(nat) -> Input<N>,
    n: nat,
) -> Option<BehaviourOut<N>> {
    match calls(n) {
        Input::Poll(light_client) => match crate::routing::poll_step(
            run(names, pending, first(calls, n)).pending,
            light_client,
        ) {
            PollStep::GenerateEvent(event) => Some(event),
            _ => None,
        },
        _ => None,
    }
}

/// What one more call of an endless sequence adds.
proof fn lemma_next_call<N: Network>(
    names: ProtocolNames,
    pending: Seq<BehaviourOut<N>>,
    calls: spec_fn(nat) -> Input<N>,
    n: nat,
)
    ensures
        run(names, pending, first(calls, n + 1)).announced == (match handed_out(
            names,
            pending,
            calls,
            n,
        ) {
            Some(event) => run(names, pending, first(calls, n)).announced.push(event),
            None => run(names, pending, first(calls, n)).announced,
        }),
        queued(first(calls, n)).is_prefix_of(queued(first(calls, n + 1))),
        calls(n) matches Input::Inject(event) ==> queued(first(calls, n + 1)) == queued(
            first(calls, n),
        ) + crate::routing::announcements(event),
{
    let shorter = first(calls, n);
    let longer = first(calls, n + 1);
    assert(longer.drop_last() =~= shorter);
    assert(longer.last() == calls(n));
    assert(queued(longer).take(queued(shorter).len() as int) =~= queued(shorter));
}

/// The announcement at position `k` of all there are, if it has been queued and not been handed out
/// when `n` calls have been made, is handed out at one of the next calls, the next idle poll being
/// the call `idle`.
proof fn lemma_handed_out_in_the_end<N: Network>(
    names: ProtocolNames,
    pending: Seq<BehaviourOut<N>>,
    calls: spec_fn(nat) -> Input<N>,
    n: nat,
    k: nat,
    idle: nat,
) -> (m: nat)
    requires
        keeps_being_polled(calls),
        run(names, pending, first(calls, n)).announced.len() <= k < (pending + queued(
            first(calls, n),
        )).len(),
        n <= idle,
        is_idle_poll(calls(idle)),
    ensures
        n <= m,
        handed_out(names, pending, calls, m) == Some((pending + queued(first(calls, n)))[k as int]),
    decreases k - run(names, pending, first(calls, n)).announced.len(), idle - n,
{
    let now = run(names, pending, first(calls, n));
    let all = pending + queued(first(calls, n));
    law_every_announcement_is_kept(names, pending, first(calls, n));
    assert((now.announced + now.pending).len() == all.len());
    lemma_next_call(names, pending, calls, n);
    let later = pending + queued(first(calls, n + 1));
    let count = queued(first(calls, n)).len() as int;
    assert(queued(first(calls, n)) =~= queued(first(calls, n + 1)).take(count));
    assert(later[k as int] == all[k as int]) by {
        if k >= pending.len() {
            assert(queued(first(calls, n + 1)).take(count)[k - pending.len()] == queued(
                first(calls, n + 1),
            )[k - pending.len()]);
        }
    }
    if handed_out(names, pending, calls, n) is Some {
        if now.announced.len() == k {
            assert(now.pending.first() == (now.announced + now.pending)[k as int]);
            n
        } else {
            assert(is_polled_from(calls, n + 1));
            let next = choose|m: nat| n + 1 <= m && is_idle_poll(#[trigger] calls(m));
            lemma_handed_out_in_the_end(names, pending, calls, n + 1, k, next)
        }
    } else {
        lemma_handed_out_in_the_end(names, pending, calls, n + 1, k, idle)
    }
}

/// Whatever an event announces is handed out at a later poll, whatever else is called, as long as
/// the behaviour keeps being polled.
pub proof fn law_every_announcement_is_handed_out<N: Network>(
    names: ProtocolNames,
    pending: Seq<BehaviourOut<N>>,
    calls: spec_fn(nat) -> Input<N>,
    at: nat,
    i: int,
)
    requires
        keeps_being_polled(calls),
        calls(at) matches Input::Inject(event) && 0 <= i < crate::routing::announcements(
            event,
        ).len(),
    ensures
        calls(at) matches Input::Inject(event) && exists|m: nat|
            at < m && #[trigger] handed_out(names, pending, calls, m) == Some(
                crate::routing::announcements(event)[i],
            ),
{
    if let Input::Inject(event) = calls(at) {
        let before = run(names, pending, first(calls, at));
        let k = (pending + queued(first(calls, at))).len() + i as nat;
        law_every_announcement_is_kept(names, pending, first(calls, at));
        assert((before.announced + before.pending).len() == (pending + queued(
            first(calls, at),
        )).len());
        lemma_next_call(names, pending, calls, at);
        assert((pending + queued(first(calls, at + 1)))[k as int]
            == crate::routing::announcements(event)[i]);
        assert(is_polled_from(calls, at + 1));
        let next = choose|m: nat| at + 1 <= m && is_idle_poll(#[trigger] calls(m));
        let m = lemma_handed_out_in_the_end(names, pending, calls, at + 1, k, next);
        assert(handed_out(names, pending, calls, m) == Some(
            crate::routing::announcements(event)[i],
        ));
    }
}

/// The event that is due when the call tells the behaviour how a look-up of the record `key` ended.
pub open spec fn get_value_event<N: Network>(input: Input<N>, key: record::Key) -> Option<
    BehaviourOut<N>,
> {
    match input {
        Input::Inject(BehaviourEvent::Discovery(DiscoveryOut::ValueFound(results, duration))) => {
            Some(BehaviourOut::Dht(DhtEvent::ValueFound(results), duration))
        },
        Input::Inject(BehaviourEvent::Discovery(DiscoveryOut::ValueNotFound(missing, duration))) => {
            if missing == key {
                Some(BehaviourOut::Dht(DhtEvent::ValueNotFound(key), duration))
            } else {
                None
            }
        },
        _ => None,
    }
}

/// The event that is due when the call tells the behaviour how putting the record `key` ended.
pub open spec fn put_value_event<N: Network>(input: Input<N>, key: record::Key) -> Option<
    BehaviourOut<N>,
> {
    match input {
        Input::Inject(BehaviourEvent::Discovery(DiscoveryOut::ValuePut(put, duration))) => {
            if put == key {
                Some(BehaviourOut::Dht(DhtEvent::ValuePut(key), duration))
            } else {
                None
            }
        },
        Input::Inject(BehaviourEvent::Discovery(DiscoveryOut::ValuePutFailed(failed, duration))) => {
            if failed == key {
                Some(BehaviourOut::Dht(DhtEvent::ValuePutFailed(key), duration))
            } else {
                None
            }
        },
        _ => None,
    }
}

/// `get_value` has the discovery protocol look the record up, and once that has answered, and as
/// long as the behaviour keeps being polled, a later poll produces either a `ValueFound` or a
/// `ValueNotFound` event: the answer that was given, with the time that it took.
pub proof fn law_get_value_produces_an_event<N: Network>(
    names: ProtocolNames,
    pending: Seq<BehaviourOut<N>>,
    calls: spec_fn(nat) -> Input<N>,
    key: record::Key,
    asked: nat,
    answered: nat,
)
    requires
        keeps_being_polled(calls),
        calls(asked) == Input::<N>::GetValue(key),
        asked < answered,
        get_value_event(calls(answered), key) is Some,
    ensures
        run(names, pending, first(calls, asked + 1)).performed == run(
            names,
            pending,
            first(calls, asked),
        ).performed.push(Action::GetValue(key)),
        exists|m: nat|
            answered < m && #[trigger] handed_out(names, pending, calls, m) == get_value_event(
                calls(answered),
                key,
            ),
{
    assert(first(calls, asked + 1).drop_last() =~= first(calls, asked));
    law_every_announcement_is_handed_out(names, pending, calls, answered, 0);
}

/// `put_value` has the discovery protocol put the record, and once that has answered, and as long
/// as the behaviour keeps being polled, a later poll produces either a `ValuePut` or a
/// `ValuePutFailed` event: the answer that was given, with the time that it took.
pub proof fn law_put_value_produces_an_event<N: Network>(
    names: ProtocolNames,
    pending: Seq<BehaviourOut<N>>,
    calls: spec_fn(nat) -> Input<N>,
    key: record::Key,
    value: Vec<u8>,
    asked: nat,
    answered: nat,
)
    requires
        keeps_being_polled(calls),
        calls(asked) == Input::<N>::PutValue(key, value),
        asked < answered,
        put_value_event(calls(answered), key) is Some,
    ensures
        run(names, pending, first(calls, asked + 1)).performed == run(
            names,
            pending,
            first(calls, asked),
        ).performed.push(Action::PutValue(key, value)),
        exists|m: nat|
            answered < m && #[trigger] handed_out(names, pending, calls, m) == put_value_event(
                calls(answered),
                key,
            ),
{
    assert(first(calls, asked + 1).drop_last() =~= first(calls, asked));
    law_every_announcement_is_handed_out(names, pending, calls, answered, 0);
}

} // verus!
