//! The streaming client's state machine.
//!
//! The client owns the bookkeeping of one logical connection: whether it is
//! connected and since when, the active subscriptions in insertion order, and
//! the runtime link (outbound sender and pump handles) of the current session,
//! which the client holds without looking into. Each operation is split into a
//! decision (what to send or dial) and a record of its outcome, so that the
//! runtime that performs the I/O stays a thin loop around these functions.

use std::sync::Arc;

use vstd::prelude::*;

use crate::message_parser::MessageParser;
use crate::streams::{Stream, StreamSpec};

verus! {

/// Errors that the client reports.
#[derive(Debug, Clone, Copy, PartialEq, Eq, Structural)]
pub enum ClientError {
    /// Both the primary and the fallback endpoint failed.
    Connection,
    /// The operation needs a connected client.
    NotConnected,
    /// The outbound message could not be handed to the connection.
    Transport,
}

/// The abstract state of a client.
pub struct ClientView {
    /// Active subscriptions, in insertion order.
    pub subscriptions: Seq<StreamSpec>,
    pub connected: bool,
    /// When the current session started, in milliseconds of a monotonic clock.
    pub connected_at: Option<u64>,
    /// Whether the client holds the runtime link of a session.
    pub linked: bool,
}

impl ClientView {
    /// Subscriptions are a set, and a session is connected, timed and linked
    /// all at once or not at all.
    pub open spec fn wf(self) -> bool {
        &&& self.subscriptions.no_duplicates()
        &&& self.connected == self.connected_at is Some
        &&& self.connected == self.linked
    }
}

/// The descriptors of a sequence of streams.
pub open spec fn views(s: Seq<Stream>) -> Seq<StreamSpec> {
    s.map_values(|x: Stream| x@)
}

/// The state after a session was established at `now`.
pub open spec fn connected_view(v: ClientView, now: u64) -> ClientView {
    ClientView { connected: true, connected_at: Some(now), linked: true, ..v }
}

/// The state after a disconnect: subscriptions are kept.
pub open spec fn disconnected_view(v: ClientView) -> ClientView {
    ClientView { connected: false, connected_at: None, linked: false, ..v }
}

/// The state at the start of a reconnect: disconnected, no subscriptions.
pub open spec fn reconnect_start(v: ClientView) -> ClientView {
    ClientView { subscriptions: Seq::empty(), ..disconnected_view(v) }
}

/// Whether subscribing to `s` sends a message: connected and not yet active.
pub open spec fn sends_subscribe(v: ClientView, s: StreamSpec) -> bool {
    v.connected && !v.subscriptions.contains(s)
}

/// The state after subscribing to `s`, its message delivered.
pub open spec fn subscribe_step(v: ClientView, s: StreamSpec) -> ClientView {
    if sends_subscribe(v, s) {
        ClientView { subscriptions: v.subscriptions.push(s), ..v }
    } else {
        v
    }
}

/// `subs` with every entry equal to `s` removed, order kept.
pub open spec fn without(subs: Seq<StreamSpec>, s: StreamSpec) -> Seq<StreamSpec>
    decreases subs.len(),
{
    if subs.len() == 0 {
        subs
    } else {
        let rest = without(subs.drop_last(), s);
        if subs.last() == s {
            rest
        } else {
            rest.push(subs.last())
        }
    }
}

/// The state after unsubscribing from `s`, its message delivered.
pub open spec fn unsubscribe_step(v: ClientView, s: StreamSpec) -> ClientView {
    if v.connected {
        ClientView { subscriptions: without(v.subscriptions, s), ..v }
    } else {
        v
    }
}

/// Milliseconds from `since` to `now`; zero if the clock reads earlier.
pub open spec fn elapsed_ms(since: u64, now: u64) -> nat {
    if now >= since {
        (now - since) as nat
    } else {
        0
    }
}

/// Connected, and the session has lasted longer than `limit_secs` at `now`.
pub open spec fn session_expired(v: ClientView, limit_secs: u64, now: u64) -> bool {
    v.connected && match v.connected_at {
        Some(t) => elapsed_ms(t, now) > limit_secs * 1000,
        None => false,
    }
}

/// Where the next connection attempt goes after `failed` attempts failed:
/// the primary endpoint first, then the fallback if there is one.
pub open spec fn dial_target_text(
    primary: Seq<char>,
    fallback: Option<Seq<char>>,
    failed: nat,
) -> Option<Seq<char>> {
    if failed == 0 {
        Some(primary)
    } else if failed == 1 {
        fallback
    } else {
        None
    }
}

/// What a reconnect hands to the runtime: the subscriptions to restore, in
/// their insertion order, and the link of the session being closed.
pub struct ReconnectPlan<L> {
    pub replay: Vec<Stream>,
    pub previous_link: Option<L>,
}

/// A streaming client over the parsing capability `P`; `L` is the runtime
/// link of a session (outbound sender and pump handles).
pub struct WebSocketClient<P, L> {
    parser: Arc<P>,
    subscriptions: Vec<Stream>,
    connected_at: Option<u64>,
    is_connected: bool,
    link: Option<L>,
}

impl<P: MessageParser, L> View for WebSocketClient<P, L> {
    type V = ClientView;

    closed spec fn view(&self) -> ClientView {
        ClientView {
            subscriptions: views(self.subscriptions@),
            connected: self.is_connected,
            connected_at: self.connected_at,
            linked: self.link is Some,
        }
    }
}

impl<P: MessageParser, L> WebSocketClient<P, L> {
    /// The parsing capability.
    pub closed spec fn capability(&self) -> P {
        *self.parser
    }

    /// The runtime link of the current session.
    pub closed spec fn held_link(&self) -> Option<L> {
        self.link
    }

    /// A disconnected client with no subscriptions.
    pub fn new(parser: P) -> (r: Self)
        ensures
            r@ == (ClientView {
                subscriptions: Seq::empty(),
                connected: false,
                connected_at: None,
                linked: false,
            }),
            r@.wf(),
            r.capability() == parser,
            r.held_link() is None,
    {
        let r = WebSocketClient {
            parser: Arc::new(parser),
            subscriptions: Vec::new(),
            connected_at: None,
            is_connected: false,
            link: None,
        };
        assert(views(r.subscriptions@) =~= Seq::empty());
        r
    }

    /// The name of the exchange, for diagnostics.
    pub fn name(&self) -> (r: &'static str)
        ensures
            r@ == self.capability().name_text(),
    {
        self.parser.name()
    }

    /// The shared parsing capability, for the pumps of a session.
    pub fn parser(&self) -> &Arc<P> {
        &self.parser
    }

    pub fn is_connected(&self) -> (r: bool)
        ensures
            r == self@.connected,
    {
        self.is_connected
    }

    /// The active subscriptions, in insertion order.
    pub fn subscriptions(&self) -> (r: &[Stream])
        ensures
            views(r@) == self@.subscriptions,
    {
        self.subscriptions.as_slice()
    }

    /// When the current session started, if connected.
    pub fn connected_at(&self) -> (r: Option<u64>)
        ensures
            r == self@.connected_at,
    {
        self.connected_at
    }

    /// The runtime link of the current session (the outbound sender lives there).
    pub fn link(&self) -> (r: Option<&L>)
        ensures
            r is Some == self@.linked,
            r is Some ==> self.held_link() == Some(*r->0),
            r is None ==> self.held_link() is None,
    {
        match &self.link {
            Some(l) => Some(l),
            None => None,
        }
    }

    /// Whether `stream` is among the active subscriptions.
    pub fn is_subscribed(&self, stream: &Stream) -> (r: bool)
        ensures
            r == self@.subscriptions.contains(stream@),
    {
        let n = self.subscriptions.len();
        let mut i: usize = 0;
        while i < n
            invariant
                n == self.subscriptions@.len(),
                i <= n,
                forall|j: int| 0 <= j < i ==> self.subscriptions@[j]@ != stream@,
            decreases n - i,
        {
            if self.subscriptions[i] == *stream {
                assert(self@.subscriptions[i as int] == stream@);
                return true;
            }
            i = i + 1;
        }
        assert forall|j: int| 0 <= j < self@.subscriptions.len() implies self@.subscriptions[j]
            != stream@ by {
            assert(self@.subscriptions[j] == self.subscriptions@[j]@);
        }
        false
    }

    /// Whether the session has outlived the exchange's ceiling at `now`
    /// (milliseconds of the same clock as the session start).
    pub fn needs_reconnect(&self, now: u64) -> (r: bool)
        ensures
            r == session_expired(self@, self.capability().session_limit_secs(), now),
    {
        if !self.is_connected {
            return false;
        }
        match self.connected_at {
            Some(t) => {
                let elapsed: u64 = if now >= t {
                    now - t
                } else {
                    0
                };
                let limit = self.parser.max_connection_duration_secs();
                (elapsed as u128) > (limit as u128) * 1000
            },
            None => false,
        }
    }

    /// The endpoint of the next connection attempt after `failed_attempts`
    /// attempts of this connect failed; a connection error once none is left.
    pub fn connect_target(&self, failed_attempts: usize) -> (r: Result<&str, ClientError>)
        ensures
            match dial_target_text(
                self.capability().endpoint_text(),
                self.capability().fallback_text(),
                failed_attempts as nat,
            ) {
                Some(e) => r is Ok && r->Ok_0@ == e,
                None => r == Err::<&str, ClientError>(ClientError::Connection),
            },
    {
        if failed_attempts == 0 {
            Ok(self.parser.endpoint())
        } else if failed_attempts == 1 {
            match self.parser.fallback_endpoint() {
                Some(e) => Ok(e),
                None => Err(ClientError::Connection),
            }
        } else {
            Err(ClientError::Connection)
        }
    }

    /// Records a session established at `now` with runtime link `link`; hands
    /// back the link of a session that was still held, if any.
    pub fn record_connected(&mut self, now: u64, link: L) -> (r: Option<L>)
        ensures
            final(self)@ == connected_view(old(self)@, now),
            old(self)@.wf() ==> final(self)@.wf(),
            final(self).capability() == old(self).capability(),
            final(self).held_link() == Some(link),
            r == old(self).held_link(),
    {
        let previous = self.link.take();
        self.link = Some(link);
        self.is_connected = true;
        self.connected_at = Some(now);
        previous
    }

    /// Decides a subscribe: an error when not connected, nothing to send when
    /// `stream` is already active, else the subscribe message to send.
    pub fn plan_subscribe(&self, stream: &Stream) -> (r: Result<Option<String>, ClientError>)
        ensures
            !self@.connected ==> r == Err::<Option<String>, ClientError>(
                ClientError::NotConnected,
            ),
            self@.connected && self@.subscriptions.contains(stream@) ==> r == Ok::<
                Option<String>,
                ClientError,
            >(None),
            sends_subscribe(self@, stream@) ==> (r is Ok && r->Ok_0 is Some
                && r->Ok_0->0@ == self.capability().subscribe_text(stream@)),
    {
        if !self.is_connected {
            return Err(ClientError::NotConnected);
        }
        if self.is_subscribed(stream) {
            return Ok(None);
        }
        Ok(Some(self.parser.format_subscribe(stream)))
    }

    /// Records the outcome of a subscribe whose message was handed to the
    /// connection (`delivered`) or not. Only a delivered subscribe makes
    /// `stream` active.
    pub fn record_subscribe(&mut self, stream: Stream, delivered: bool) -> (r: Result<
        (),
        ClientError,
    >)
        ensures
            !old(self)@.connected ==> r == Err::<(), ClientError>(ClientError::NotConnected)
                && final(self)@ == old(self)@,
            old(self)@.connected && !delivered ==> r == Err::<(), ClientError>(
                ClientError::Transport,
            ) && final(self)@ == old(self)@,
            old(self)@.connected && delivered ==> r is Ok && final(self)@ == subscribe_step(
                old(self)@,
                stream@,
            ),
            old(self)@.wf() ==> final(self)@.wf(),
            final(self).capability() == old(self).capability(),
            final(self).held_link() == old(self).held_link(),
    {
        if !self.is_connected {
            return Err(ClientError::NotConnected);
        }
        if !delivered {
            return Err(ClientError::Transport);
        }
        if !self.is_subscribed(&stream) {
            let ghost before = self.subscriptions@;
            let ghost s = stream@;
            self.subscriptions.push(stream);
            assert(views(self.subscriptions@) =~= views(before).push(s));
            proof {
                if old(self)@.wf() {
                    lemma_push_no_duplicates(views(before), s);
                }
            }
        }
        Ok(())
    }

    /// Decides an unsubscribe: an error when not connected, else the
    /// unsubscribe message, whether or not `stream` is active.
    pub fn plan_unsubscribe(&self, stream: &Stream) -> (r: Result<String, ClientError>)
        ensures
            !self@.connected ==> r == Err::<String, ClientError>(ClientError::NotConnected),
            self@.connected ==> (r is Ok && r->Ok_0@ == self.capability().unsubscribe_text(
                stream@,
            )),
    {
        if !self.is_connected {
            return Err(ClientError::NotConnected);
        }
        Ok(self.parser.format_unsubscribe(stream))
    }

    /// Records the outcome of an unsubscribe whose message was handed to the
    /// connection (`delivered`) or not. A delivered unsubscribe removes every
    /// entry equal to `stream`, whether or not there was one.
    pub fn record_unsubscribe(&mut self, stream: &Stream, delivered: bool) -> (r: Result<
        (),
        ClientError,
    >)
        ensures
            !old(self)@.connected ==> r == Err::<(), ClientError>(ClientError::NotConnected)
                && final(self)@ == old(self)@,
            old(self)@.connected && !delivered ==> r == Err::<(), ClientError>(
                ClientError::Transport,
            ) && final(self)@ == old(self)@,
            old(self)@.connected && delivered ==> r is Ok && final(self)@ == unsubscribe_step(
                old(self)@,
                stream@,
            ),
            old(self)@.wf() ==> final(self)@.wf(),
            final(self).capability() == old(self).capability(),
            final(self).held_link() == old(self).held_link(),
    {
        if !self.is_connected {
            return Err(ClientError::NotConnected);
        }
        if !delivered {
            return Err(ClientError::Transport);
        }
        let ghost subs = views(self.subscriptions@);
        let n = self.subscriptions.len();
        let mut kept: Vec<Stream> = Vec::new();
        let mut i: usize = 0;
        while i < n
            invariant
                n == self.subscriptions@.len(),
                subs == views(self.subscriptions@),
                i <= n,
                views(kept@) == without(subs.take(i as int), stream@),
            decreases n - i,
        {
            assert(subs.take(i + 1).drop_last() =~= subs.take(i as int));
            if self.subscriptions[i] != *stream {
                let ghost before = kept@;
                let x = self.subscriptions[i].clone();
                kept.push(x);
                assert(views(kept@) =~= views(before).push(subs[i as int]));
            }
            i = i + 1;
        }
        assert(subs.take(n as int) =~= subs);
        self.subscriptions = kept;
        proof {
            if old(self)@.wf() {
                lemma_without_no_duplicates(subs, stream@);
            }
        }
        Ok(())
    }

    /// Ends the session: afterwards the client is disconnected, holds no link
    /// and no session start, whatever its state before; subscriptions are
    /// kept. Hands back the link so that the runtime can close the connection
    /// and cancel the pumps.
    pub fn disconnect(&mut self) -> (r: Option<L>)
        ensures
            final(self)@ == disconnected_view(old(self)@),
            !final(self)@.connected,
            !final(self)@.linked,
            final(self)@.connected_at is None,
            old(self)@.wf() ==> final(self)@.wf(),
            final(self).capability() == old(self).capability(),
            final(self).held_link() is None,
            r == old(self).held_link(),
    {
        let previous = self.link.take();
        self.is_connected = false;
        self.connected_at = None;
        previous
    }

    /// Starts a reconnect: takes the active subscriptions for replay, ends
    /// the session and clears the active set.
    pub fn reconnect(&mut self) -> (r: ReconnectPlan<L>)
        ensures
            final(self)@ == reconnect_start(old(self)@),
            views(r.replay@) == old(self)@.subscriptions,
            final(self)@.wf(),
            final(self).capability() == old(self).capability(),
            final(self).held_link() is None,
            r.previous_link == old(self).held_link(),
    {
        let mut replay: Vec<Stream> = Vec::new();
        std::mem::swap(&mut replay, &mut self.subscriptions);
        let previous_link = self.disconnect();
        assert(views(self.subscriptions@) =~= Seq::empty());
        ReconnectPlan { replay, previous_link }
    }

    /// Starts a reconnect when the session has expired at `now`; otherwise
    /// changes nothing.
    pub fn reconnect_if_needed(&mut self, now: u64) -> (r: Option<ReconnectPlan<L>>)
        ensures
            session_expired(old(self)@, old(self).capability().session_limit_secs(), now) ==> (
            r is Some && final(self)@ == reconnect_start(old(self)@) && views(r->0.replay@)
                == old(self)@.subscriptions && r->0.previous_link == old(self).held_link()
                && final(self).held_link() is None),
            !session_expired(old(self)@, old(self).capability().session_limit_secs(), now) ==> (
            r is None && final(self)@ == old(self)@ && final(self).held_link() == old(
                self,
            ).held_link()),
            old(self)@.wf() ==> final(self)@.wf(),
            final(self).capability() == old(self).capability(),
    {
        if self.needs_reconnect(now) {
            Some(self.reconnect())
        } else {
            None
        }
    }
}

/// Appending an absent element keeps a sequence free of duplicates.
pub proof fn lemma_push_no_duplicates(subs: Seq<StreamSpec>, s: StreamSpec)
    requires
        subs.no_duplicates(),
        !subs.contains(s),
    ensures
        subs.push(s).no_duplicates(),
{
    assert forall|i: int, j: int|
        0 <= i < subs.push(s).len() && 0 <= j < subs.push(s).len() && i != j implies subs.push(
            s,
        )[i] != subs.push(s)[j] by {
        if i == subs.len() as int {
            assert(subs[j] == subs.push(s)[j]);
        } else if j == subs.len() as int {
            assert(subs[i] == subs.push(s)[i]);
        }
    }
}

/// What `without` keeps: exactly the entries other than `s`.
pub proof fn lemma_without_contains(subs: Seq<StreamSpec>, s: StreamSpec, x: StreamSpec)
    ensures
        without(subs, s).contains(x) == (subs.contains(x) && x != s),
    decreases subs.len(),
{
    if subs.len() > 0 {
        lemma_without_contains(subs.drop_last(), s, x);
        let rest = without(subs.drop_last(), s);
        if subs.contains(x) && x != s {
            let k = choose|k: int| 0 <= k < subs.len() && subs[k] == x;
            if k < subs.len() - 1 {
                assert(subs.drop_last()[k] == x);
            }
        }
        if subs.drop_last().contains(x) {
            let k = choose|k: int| 0 <= k < subs.drop_last().len() && subs.drop_last()[k] == x;
            assert(subs[k] == x);
        }
        if subs.last() != s {
            if rest.push(subs.last()).contains(x) {
                let k = choose|k: int| 0 <= k < rest.push(subs.last()).len() && rest.push(
                    subs.last(),
                )[k] == x;
                if k < rest.len() {
                    assert(rest[k] == x);
                }
            }
            if x == subs.last() {
                assert(rest.push(subs.last())[rest.len() as int] == x);
            }
            if rest.contains(x) {
                let k = choose|k: int| 0 <= k < rest.len() && rest[k] == x;
                assert(rest.push(subs.last())[k] == x);
            }
        }
    }
}

/// Removing entries keeps a sequence free of duplicates.
pub proof fn lemma_without_no_duplicates(subs: Seq<StreamSpec>, s: StreamSpec)
    requires
        subs.no_duplicates(),
    ensures
        without(subs, s).no_duplicates(),
    decreases subs.len(),
{
    if subs.len() > 0 {
        let init = subs.drop_last();
        assert(init.no_duplicates()) by {
            assert forall|i: int, j: int|
                0 <= i < init.len() && 0 <= j < init.len() && i != j implies init[i]
                != init[j] by {
                assert(init[i] == subs[i] && init[j] == subs[j]);
            }
        }
        lemma_without_no_duplicates(init, s);
        if subs.last() != s {
            lemma_without_contains(init, s, subs.last());
            if init.contains(subs.last()) {
                let k = choose|k: int| 0 <= k < init.len() && init[k] == subs.last();
                assert(subs[k] == subs[subs.len() - 1]);
            }
            lemma_push_no_duplicates(without(init, s), subs.last());
        }
    }
}

} // verus!
