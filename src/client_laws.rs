//! Laws of the streaming client, stated over its abstract state.

use vstd::prelude::*;

use crate::message_parser::MessageParser;
use crate::streams::StreamSpec;
use crate::websocket_client::{
    connected_view,
    reconnect_start,
    sends_subscribe,
    session_expired,
    subscribe_step,
    unsubscribe_step,
    without,
    ClientView,
};

verus! {

/// The state after subscribing to each of `streams` in order, every message
/// delivered.
pub open spec fn replay(v: ClientView, streams: Seq<StreamSpec>) -> ClientView
    decreases streams.len(),
{
    if streams.len() == 0 {
        v
    } else {
        subscribe_step(replay(v, streams.drop_last()), streams.last())
    }
}

/// The subscribe messages sent, in order, while subscribing to each of
/// `streams` from state `v`.
pub open spec fn replay_messages<P: MessageParser>(
    p: P,
    v: ClientView,
    streams: Seq<StreamSpec>,
) -> Seq<Seq<char>>
    decreases streams.len(),
{
    if streams.len() == 0 {
        Seq::empty()
    } else {
        let sent = replay_messages(p, v, streams.drop_last());
        if sends_subscribe(replay(v, streams.drop_last()), streams.last()) {
            sent.push(p.subscribe_text(streams.last()))
        } else {
            sent
        }
    }
}

/// How many entries of `subs` equal `s`.
pub open spec fn occurrences(subs: Seq<StreamSpec>, s: StreamSpec) -> nat
    decreases subs.len(),
{
    if subs.len() == 0 {
        0
    } else {
        occurrences(subs.drop_last(), s) + if subs.last() == s {
            1nat
        } else {
            0nat
        }
    }
}

proof fn lemma_occurrences_absent(subs: Seq<StreamSpec>, s: StreamSpec)
    requires
        !subs.contains(s),
    ensures
        occurrences(subs, s) == 0,
    decreases subs.len(),
{
    if subs.len() > 0 {
        assert(subs[subs.len() - 1] == subs.last());
        assert(!subs.drop_last().contains(s)) by {
            if subs.drop_last().contains(s) {
                let k = choose|k: int| 0 <= k < subs.drop_last().len() && subs.drop_last()[k] == s;
                assert(subs[k] == s);
            }
        }
        lemma_occurrences_absent(subs.drop_last(), s);
    }
}

proof fn lemma_occurrences_unique(subs: Seq<StreamSpec>, s: StreamSpec)
    requires
        subs.no_duplicates(),
        subs.contains(s),
    ensures
        occurrences(subs, s) == 1,
    decreases subs.len(),
{
    let init = subs.drop_last();
    assert(init.no_duplicates()) by {
        assert forall|i: int, j: int|
            0 <= i < init.len() && 0 <= j < init.len() && i != j implies init[i] != init[j] by {
            assert(init[i] == subs[i] && init[j] == subs[j]);
        }
    }
    if subs.last() == s {
        if init.contains(s) {
            let k = choose|k: int| 0 <= k < init.len() && init[k] == s;
            assert(subs[k] == subs[subs.len() - 1]);
        }
        lemma_occurrences_absent(init, s);
    } else {
        let k = choose|k: int| 0 <= k < subs.len() && subs[k] == s;
        assert(k != subs.len() - 1);
        assert(init[k] == s);
        lemma_occurrences_unique(init, s);
    }
}

/// Subscribing twice to the same stream while connected leaves it active
/// exactly once, and sends exactly one subscribe message if it was not yet
/// active (none if it was).
pub proof fn lemma_subscribe_idempotent<P: MessageParser>(p: P, v: ClientView, s: StreamSpec)
    requires
        v.wf(),
        v.connected,
    ensures
        occurrences(replay(v, seq![s, s]).subscriptions, s) == 1,
        replay(v, seq![s, s]) == subscribe_step(v, s),
        !v.subscriptions.contains(s) ==> replay_messages(p, v, seq![s, s]) == seq![
            p.subscribe_text(s),
        ],
        v.subscriptions.contains(s) ==> replay_messages(p, v, seq![s, s]).len() == 0,
{
    let twice = seq![s, s];
    assert(twice.drop_last() =~= seq![s]);
    assert(seq![s].drop_last() =~= Seq::<StreamSpec>::empty());
    assert(twice.last() == s);
    assert(seq![s].last() == s);
    let once = subscribe_step(v, s);
    assert(replay(v, Seq::<StreamSpec>::empty()) == v);
    assert(replay(v, seq![s]) == once);
    assert(once.subscriptions.contains(s)) by {
        if !v.subscriptions.contains(s) {
            assert(once.subscriptions[v.subscriptions.len() as int] == s);
        }
    }
    assert(replay(v, twice) == once);
    if !v.subscriptions.contains(s) {
        crate::websocket_client::lemma_push_no_duplicates(v.subscriptions, s);
    }
    lemma_occurrences_unique(once.subscriptions, s);
    assert(replay_messages(p, v, Seq::<StreamSpec>::empty()) =~= Seq::<Seq<char>>::empty());
    if !v.subscriptions.contains(s) {
        assert(replay_messages(p, v, seq![s]) =~= seq![p.subscribe_text(s)]);
    } else {
        assert(replay_messages(p, v, seq![s]).len() == 0);
    }
}

/// Replaying distinct streams on a connected client with no subscriptions
/// makes exactly those streams active, in order, sending one subscribe
/// message for each.
proof fn lemma_replay_fresh<P: MessageParser>(p: P, w: ClientView, streams: Seq<StreamSpec>)
    requires
        w.connected,
        w.subscriptions.len() == 0,
        streams.no_duplicates(),
    ensures
        replay(w, streams) == (ClientView { subscriptions: streams, ..w }),
        replay_messages(p, w, streams) == streams.map_values(|s: StreamSpec| p.subscribe_text(s)),
    decreases streams.len(),
{
    if streams.len() == 0 {
        assert(w.subscriptions =~= streams);
        assert(streams.map_values(|s: StreamSpec| p.subscribe_text(s)) =~= Seq::<
            Seq<char>,
        >::empty());
    } else {
        let init = streams.drop_last();
        let last = streams.last();
        assert(init.no_duplicates()) by {
            assert forall|i: int, j: int|
                0 <= i < init.len() && 0 <= j < init.len() && i != j implies init[i]
                != init[j] by {
                assert(init[i] == streams[i] && init[j] == streams[j]);
            }
        }
        lemma_replay_fresh(p, w, init);
        assert(!init.contains(last)) by {
            if init.contains(last) {
                let k = choose|k: int| 0 <= k < init.len() && init[k] == last;
                assert(streams[k] == streams[streams.len() - 1]);
            }
        }
        assert(init.push(last) =~= streams);
        assert(streams.map_values(|s: StreamSpec| p.subscribe_text(s)) =~= init.map_values(
            |s: StreamSpec| p.subscribe_text(s),
        ).push(p.subscribe_text(last)));
    }
}

/// A reconnect restores exactly the subscriptions active before it, in their
/// insertion order, by sending one subscribe message per subscription in that
/// order.
pub proof fn lemma_reconnect_restores<P: MessageParser>(p: P, v: ClientView, now: u64)
    requires
        v.wf(),
    ensures
        replay(connected_view(reconnect_start(v), now), v.subscriptions).subscriptions
            == v.subscriptions,
        replay(connected_view(reconnect_start(v), now), v.subscriptions).connected,
        replay_messages(p, connected_view(reconnect_start(v), now), v.subscriptions)
            == v.subscriptions.map_values(|s: StreamSpec| p.subscribe_text(s)),
{
    lemma_replay_fresh(p, connected_view(reconnect_start(v), now), v.subscriptions);
}

/// When a reconnect's replay stops after its first `k` subscriptions (a
/// re-subscribe failed and is not retried), exactly those `k` are active, in
/// their insertion order, the client is still connected, and one subscribe
/// message was sent for each of them.
pub proof fn lemma_reconnect_partial<P: MessageParser>(p: P, v: ClientView, now: u64, k: int)
    requires
        v.wf(),
        0 <= k <= v.subscriptions.len(),
    ensures
        replay(connected_view(reconnect_start(v), now), v.subscriptions.take(k)).subscriptions
            == v.subscriptions.take(k),
        replay(connected_view(reconnect_start(v), now), v.subscriptions.take(k)).connected,
        replay_messages(p, connected_view(reconnect_start(v), now), v.subscriptions.take(k))
            == v.subscriptions.take(k).map_values(|s: StreamSpec| p.subscribe_text(s)),
{
    let prefix = v.subscriptions.take(k);
    assert(prefix.no_duplicates()) by {
        assert forall|i: int, j: int|
            0 <= i < prefix.len() && 0 <= j < prefix.len() && i != j implies prefix[i]
            != prefix[j] by {
            assert(prefix[i] == v.subscriptions[i] && prefix[j] == v.subscriptions[j]);
        }
    }
    lemma_replay_fresh(p, connected_view(reconnect_start(v), now), prefix);
}

/// Right after a session starts it has not expired; it has expired exactly
/// when more than the ceiling has passed since.
pub proof fn lemma_session_expiry(v: ClientView, limit_secs: u64, start: u64, now: u64)
    ensures
        !session_expired(connected_view(v, start), limit_secs, start),
        now >= start ==> (session_expired(connected_view(v, start), limit_secs, now) <==> (now
            - start) > limit_secs * 1000),
{
}

proof fn lemma_without_absent(subs: Seq<StreamSpec>, s: StreamSpec)
    requires
        !subs.contains(s),
    ensures
        without(subs, s) == subs,
    decreases subs.len(),
{
    if subs.len() > 0 {
        assert(subs[subs.len() - 1] == subs.last());
        assert(!subs.drop_last().contains(s)) by {
            if subs.drop_last().contains(s) {
                let k = choose|k: int| 0 <= k < subs.drop_last().len() && subs.drop_last()[k] == s;
                assert(subs[k] == s);
            }
        }
        lemma_without_absent(subs.drop_last(), s);
        assert(subs.drop_last().push(subs.last()) =~= subs);
    }
}

/// Unsubscribing from a stream that is not active changes nothing.
pub proof fn lemma_unsubscribe_inactive(v: ClientView, s: StreamSpec)
    requires
        !v.subscriptions.contains(s),
    ensures
        unsubscribe_step(v, s) == v,
        unsubscribe_step(v, s).subscriptions.len() == v.subscriptions.len(),
{
    lemma_without_absent(v.subscriptions, s);
}

} // verus!
