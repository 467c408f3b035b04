//! Decisions of the two pumps of a session.
//!
//! The inbound pump reads frames, has text frames parsed, and forwards the
//! events to a bounded channel that the caller drains; the outbound pump writes
//! queued messages in order. The runtime performs each read, parse, send and
//! write, and asks these functions what to do next.

use vstd::prelude::*;

verus! {

/// What a read from the socket produced.
#[derive(Debug, Clone, Copy, PartialEq, Eq, Structural)]
pub enum Frame {
    Text,
    Binary,
    Ping,
    Pong,
    Close,
    /// A raw frame of no message kind above.
    Other,
    /// A read or protocol error.
    Failed,
}

/// What the inbound pump does with a frame.
#[derive(Debug, Clone, Copy, PartialEq, Eq, Structural)]
pub enum FrameStep {
    /// Hand the text to the parsing capability.
    Parse,
    /// Nothing to deliver; read the next frame.
    Skip,
    /// The session is over; end the pump.
    Stop,
}

/// The outcome of offering an event to the bounded event channel.
#[derive(Debug, Clone, Copy, PartialEq, Eq, Structural)]
pub enum Delivery {
    Accepted,
    /// The channel was full: the event is dropped.
    Full,
    /// The receiving end is gone.
    Closed,
}

/// Whether a pump goes on.
#[derive(Debug, Clone, Copy, PartialEq, Eq, Structural)]
pub enum PumpControl {
    Continue,
    Stop,
}

/// What the inbound pump does with a parse result.
#[derive(Debug, PartialEq, Eq)]
pub enum Parsed<E> {
    /// Offer the event to the event channel.
    Forward(E),
    /// Not market data (control, acknowledgement, malformed): discard it.
    Discard,
}

/// Text frames are parsed; ping, pong, binary and raw frames are skipped
/// (answering pings is the transport's business); a close frame or a read
/// error ends the pump.
pub fn on_frame(frame: Frame) -> (r: FrameStep)
    ensures
        frame == Frame::Text ==> r == FrameStep::Parse,
        (frame == Frame::Binary || frame == Frame::Ping || frame == Frame::Pong || frame
            == Frame::Other) ==> r == FrameStep::Skip,
        (frame == Frame::Close || frame == Frame::Failed) ==> r == FrameStep::Stop,
{
    match frame {
        Frame::Text => FrameStep::Parse,
        Frame::Binary => FrameStep::Skip,
        Frame::Ping => FrameStep::Skip,
        Frame::Pong => FrameStep::Skip,
        Frame::Other => FrameStep::Skip,
        Frame::Close => FrameStep::Stop,
        Frame::Failed => FrameStep::Stop,
    }
}

/// A parse that found an event forwards it; a parse miss is no error and
/// is discarded.
pub fn on_parsed<E>(parsed: Option<E>) -> (r: Parsed<E>)
    ensures
        match parsed {
            Some(e) => r == Parsed::Forward(e),
            None => r == Parsed::<E>::Discard,
        },
{
    match parsed {
        Some(e) => Parsed::Forward(e),
        None => Parsed::Discard,
    }
}

/// Backpressure: when the event channel is full the event is dropped and the
/// pump goes on, so that the socket keeps being read; when the caller has
/// dropped the receiving end, the pump ends.
pub fn on_delivery(delivery: Delivery) -> (r: PumpControl)
    ensures
        r == PumpControl::Stop <==> delivery == Delivery::Closed,
{
    match delivery {
        Delivery::Accepted => PumpControl::Continue,
        Delivery::Full => PumpControl::Continue,
        Delivery::Closed => PumpControl::Stop,
    }
}

/// The outbound pump goes on while writes succeed; a write failure ends it.
pub fn on_write(written: bool) -> (r: PumpControl)
    ensures
        r == PumpControl::Stop <==> !written,
{
    if written {
        PumpControl::Continue
    } else {
        PumpControl::Stop
    }
}

} // verus!
