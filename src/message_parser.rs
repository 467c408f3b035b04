//! The parsing capability that each exchange supplies to the streaming client.

use vstd::prelude::*;

use crate::streams::{Stream, StreamSpec};

verus! {

/// Session ceiling for exchanges with a 24-hour connection limit: one hour less.
pub const DEFAULT_MAX_CONNECTION_SECS: u64 = 82800;

/// Exchange-specific connection parameters and wire formatting.
///
/// The spec functions describe what the exec methods return; the subscribe and
/// unsubscribe texts are functions of the descriptor alone, so that replaying
/// subscriptions after a reconnect sends the same messages again. Their default
/// bodies leave the value unspecified: an implementation verified against this
/// trait defines them, since its exec methods must meet the `ensures` below.
pub trait MessageParser {
    /// The primary endpoint URL.
    open spec fn endpoint_text(&self) -> Seq<char> {
        arbitrary()
    }

    /// The fallback endpoint URL, if the exchange has one.
    open spec fn fallback_text(&self) -> Option<Seq<char>> {
        arbitrary()
    }

    /// The wire message that subscribes to `stream`.
    open spec fn subscribe_text(&self, stream: StreamSpec) -> Seq<char> {
        arbitrary()
    }

    /// The wire message that unsubscribes from `stream`.
    open spec fn unsubscribe_text(&self, stream: StreamSpec) -> Seq<char> {
        arbitrary()
    }

    /// The stable name of the exchange.
    open spec fn name_text(&self) -> Seq<char> {
        arbitrary()
    }

    /// The exchange-imposed session ceiling in seconds.
    open spec fn session_limit_secs(&self) -> u64 {
        arbitrary()
    }

    /// Returns the primary WebSocket endpoint URL.
    fn endpoint(&self) -> (r: &str)
        ensures
            r@ == self.endpoint_text(),
    ;

    /// Returns the fallback endpoint URL, tried only when the primary fails.
    fn fallback_endpoint(&self) -> (r: Option<&str>)
        ensures
            match r {
                Some(e) => self.fallback_text() == Some(e@),
                None => self.fallback_text() is None,
            },
    ;

    /// Formats the subscribe message for `stream`.
    fn format_subscribe(&self, stream: &Stream) -> (r: String)
        ensures
            r@ == self.subscribe_text(stream@),
    ;

    /// Formats the unsubscribe message for `stream`.
    fn format_unsubscribe(&self, stream: &Stream) -> (r: String)
        ensures
            r@ == self.unsubscribe_text(stream@),
    ;

    /// A stable name for diagnostics.
    fn name(&self) -> (r: &'static str)
        ensures
            r@ == self.name_text(),
    ;

    /// Returns the maximum session duration in seconds.
    fn max_connection_duration_secs(&self) -> (r: u64)
        ensures
            r == self.session_limit_secs(),
    ;
}

} // verus!
