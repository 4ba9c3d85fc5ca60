//! The decision core of the resilient event-stream client.
//!
//! The client must stay attached to a long-lived server-push feed across
//! disconnects, malformed payloads and silent stream termination. The I/O
//! itself (connecting, decoding frames, sleeping) lives outside the
//! library; what is verified here is the policy: what each observed stream
//! item leads to, and how long to cool down before reconnecting.

use vstd::prelude::*;

use crate::models::Event;

verus! {

/// The cool-down before retrying a failed initial connection, in
/// milliseconds.
pub const CONNECT_RETRY_COOLDOWN_MS: u64 = 5000;

/// The cool-down after a malformed payload or a frame-read error, in
/// milliseconds.
pub const ERROR_COOLDOWN_MS: u64 = 5000;

/// The longest stream-end cool-down: taken when the connection lived under
/// thirty seconds, to avoid hammering a flapping endpoint.
pub const SHORT_LIVED_COOLDOWN_MS: u64 = 10000;

/// The middle stream-end cool-down: taken when the connection lived
/// between thirty and forty-four seconds.
pub const MEDIUM_LIVED_COOLDOWN_MS: u64 = 5000;

/// The connection age below which a stream end takes the longest
/// cool-down, in milliseconds.
pub const SHORT_LIVED_LIMIT_MS: u64 = 30000;

/// The connection age up to which a stream end takes the middle
/// cool-down, in milliseconds; past it the client reconnects immediately.
pub const MEDIUM_LIVED_LIMIT_MS: u64 = 44000;

/// One observed item of the framed message stream, as the decoder hands
/// it to the policy.
#[derive(Debug, Clone)]
pub enum StreamItem {
    /// A message frame whose payload parsed as a typed event.
    Payload(Event),
    /// A message frame whose payload did not parse.
    Malformed,
    /// A control or keep-alive frame.
    KeepAlive,
    /// A frame-read error.
    ReadError,
    /// The stream ended, after the connection had been open this long.
    Ended { elapsed_ms: u64 },
}

/// What the client does with one observed stream item.
#[derive(Debug, Clone)]
pub enum ClientAction {
    /// Hand the event to the caller and stay connected.
    Emit(Event),
    /// Keep waiting for the next frame; no state change.
    Wait,
    /// Sleep this long, then tear down the connection and reconnect.
    Reconnect { cooldown_ms: u64 },
}

/// The tiered cool-down after a stream end: a connection that lived under
/// thirty seconds waits the longest, one that lived thirty to forty-four
/// seconds waits the middle interval, and a long-lived connection
/// reconnects immediately as a normal, healthy rotation.
pub fn cooldown_after_stream_end(elapsed_ms: u64) -> (r: u64)
    ensures
        elapsed_ms < SHORT_LIVED_LIMIT_MS ==> r == SHORT_LIVED_COOLDOWN_MS,
        SHORT_LIVED_LIMIT_MS <= elapsed_ms <= MEDIUM_LIVED_LIMIT_MS ==> r
            == MEDIUM_LIVED_COOLDOWN_MS,
        elapsed_ms > MEDIUM_LIVED_LIMIT_MS ==> r == 0,
{
    if elapsed_ms < SHORT_LIVED_LIMIT_MS {
        SHORT_LIVED_COOLDOWN_MS
    } else if elapsed_ms <= MEDIUM_LIVED_LIMIT_MS {
        MEDIUM_LIVED_COOLDOWN_MS
    } else {
        0
    }
}

/// What the policy answers to one stream item.
pub open spec fn spec_client_step(item: StreamItem) -> ClientAction {
    match item {
        StreamItem::Payload(ev) => ClientAction::Emit(ev),
        StreamItem::KeepAlive => ClientAction::Wait,
        StreamItem::Malformed => ClientAction::Reconnect { cooldown_ms: ERROR_COOLDOWN_MS },
        StreamItem::ReadError => ClientAction::Reconnect { cooldown_ms: ERROR_COOLDOWN_MS },
        StreamItem::Ended { elapsed_ms } => ClientAction::Reconnect {
            cooldown_ms: if elapsed_ms < SHORT_LIVED_LIMIT_MS {
                SHORT_LIVED_COOLDOWN_MS
            } else if elapsed_ms <= MEDIUM_LIVED_LIMIT_MS {
                MEDIUM_LIVED_COOLDOWN_MS
            } else {
                0
            },
        },
    }
}

/// Decide what to do with one observed stream item: only a parsed payload
/// reaches the caller; every failure mode reconnects with its cool-down,
/// so no transient error ever propagates out of the client.
pub fn client_step(item: StreamItem) -> (r: ClientAction)
    ensures
        r == spec_client_step(item),
{
    match item {
        StreamItem::Payload(ev) => ClientAction::Emit(ev),
        StreamItem::KeepAlive => ClientAction::Wait,
        StreamItem::Malformed => ClientAction::Reconnect { cooldown_ms: ERROR_COOLDOWN_MS },
        StreamItem::ReadError => ClientAction::Reconnect { cooldown_ms: ERROR_COOLDOWN_MS },
        StreamItem::Ended { elapsed_ms } => ClientAction::Reconnect {
            cooldown_ms: cooldown_after_stream_end(elapsed_ms),
        },
    }
}

} // verus!
