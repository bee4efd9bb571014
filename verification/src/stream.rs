//! The reconnecting source of traffic samples.
//!
//! The source is a state machine that a driver runs. In each state one piece
//! of outside work is pending, which [`TrafficStream::action`] names; the
//! driver does it and reports how it ended with [`TrafficStream::step`]:
//!
//! * `Connecting`: read the endpoint from the live configuration, build its
//!   address with [`traffic_ws_url`] and open the connection;
//! * `Streaming`: wait for the next frame of the connection;
//! * `Backoff`: wait for [`RECONNECT_DELAY_SECS`] seconds.
//!
//! A connection that cannot be opened, or that ends, sends the machine to
//! `Backoff` and from there to `Connecting` again, without end; so does a
//! configuration that names no endpoint. An event that does not belong to
//! the pending work is ignored.

use vstd::prelude::*;
use crate::decimal::{decimal, push_decimal};
use crate::traffic::{json_document, traffic_of_document, Traffic};

verus! {

/// The seconds to wait before the connection is tried again.
pub const RECONNECT_DELAY_SECS: u64 = 5;

/// Where the source stands.
#[derive(Clone, Copy, Debug, PartialEq, Eq, Structural)]
pub enum StreamState {
    /// A connection attempt is due or under way.
    Connecting,
    /// The connection is open and frames are read from it.
    Streaming,
    /// The last connection failed or ended; the delay before the next attempt runs.
    Backoff,
}

/// How a piece of outside work ended.
#[derive(Debug)]
pub enum StreamEvent {
    /// The connection was opened.
    Connected,
    /// The connection could not be opened.
    ConnectFailed,
    /// The configuration names no endpoint to connect to.
    EndpointMissing,
    /// A frame arrived, with this text.
    Message(String),
    /// A frame arrived that holds no text.
    Unreadable,
    /// The connection ended or broke.
    Closed,
    /// The delay before the next attempt is over.
    DelayElapsed,
}

/// The outside work that is pending in a state.
#[derive(Clone, Copy, Debug, PartialEq, Eq, Structural)]
pub enum StreamAction {
    /// Resolve the endpoint anew and open a connection to it.
    Connect,
    /// Wait for the next frame.
    Receive,
    /// Sleep for this many seconds.
    Wait { secs: u64 },
}

/// The state that follows `state` on `event`.
pub open spec fn next_state(state: StreamState, event: StreamEvent) -> StreamState {
    match (state, event) {
        (StreamState::Connecting, StreamEvent::Connected) => StreamState::Streaming,
        (StreamState::Connecting, StreamEvent::ConnectFailed) => StreamState::Backoff,
        (StreamState::Connecting, StreamEvent::EndpointMissing) => StreamState::Backoff,
        (StreamState::Streaming, StreamEvent::Closed) => StreamState::Backoff,
        (StreamState::Backoff, StreamEvent::DelayElapsed) => StreamState::Connecting,
        _ => state,
    }
}

/// The sample that `event` yields in `state`: every frame that arrives while
/// streaming yields one, and nothing else does.
pub open spec fn yielded(state: StreamState, event: StreamEvent) -> Option<Traffic> {
    match (state, event) {
        (StreamState::Streaming, StreamEvent::Message(text)) => Some(
            traffic_of_document(json_document(text@)),
        ),
        (StreamState::Streaming, StreamEvent::Unreadable) => Some(Traffic { up: 0, down: 0 }),
        _ => None,
    }
}

/// The work that is pending in `state`.
pub open spec fn pending(state: StreamState) -> StreamAction {
    match state {
        StreamState::Connecting => StreamAction::Connect,
        StreamState::Streaming => StreamAction::Receive,
        StreamState::Backoff => StreamAction::Wait { secs: RECONNECT_DELAY_SECS },
    }
}

/// The state that the source reaches from `state` after `events`, in order.
pub open spec fn run(state: StreamState, events: Seq<StreamEvent>) -> StreamState
    decreases events.len(),
{
    if events.len() == 0 {
        state
    } else {
        next_state(run(state, events.drop_last()), events.last())
    }
}

/// The address of the traffic feed on `host` and `port`, with the access
/// token where one is set.
pub open spec fn ws_url_text(host: Seq<char>, port: u16, secret: Option<Seq<char>>) -> Seq<char> {
    let base = "ws://"@ + host + ":"@ + decimal(port as nat) + "/traffic"@;
    match secret {
        Some(token) => base + "?token="@ + token,
        None => base,
    }
}

/// Builds the address of the proxy core's traffic feed:
/// `ws://<host>:<port>/traffic`, followed by `?token=<secret>` where a secret
/// is configured.
pub fn traffic_ws_url(host: &str, port: u16, secret: Option<&str>) -> (url: String)
    ensures
        url@ == ws_url_text(
            host@,
            port,
            match secret {
                Some(token) => Some(token@),
                None => None,
            },
        ),
{
    let mut url = String::new();
    url.append("ws://");
    url.append(host);
    url.append(":");
    push_decimal(&mut url, port as u64);
    url.append("/traffic");
    match secret {
        Some(token) => {
            url.append("?token=");
            url.append(token);
            assert(url@ =~= "ws://"@ + host@ + ":"@ + decimal(port as nat) + "/traffic"@
                + "?token="@ + token@);
        },
        None => {
            assert(url@ =~= "ws://"@ + host@ + ":"@ + decimal(port as nat) + "/traffic"@);
        },
    }
    url
}

/// A source of traffic samples that reconnects without end.
#[derive(Debug)]
pub struct TrafficStream {
    state: StreamState,
}

impl View for TrafficStream {
    type V = StreamState;

    closed spec fn view(&self) -> StreamState {
        self.state
    }
}

impl TrafficStream {
    /// A source that has not connected yet: its first work is to connect.
    pub fn new() -> (stream: TrafficStream)
        ensures
            stream@ == StreamState::Connecting,
    {
        TrafficStream { state: StreamState::Connecting }
    }

    /// The state the source is in.
    pub fn state(&self) -> (state: StreamState)
        ensures
            state == self@,
    {
        self.state
    }

    /// The work the driver has to do next.
    pub fn action(&self) -> (action: StreamAction)
        ensures
            action == pending(self@),
    {
        match self.state {
            StreamState::Connecting => StreamAction::Connect,
            StreamState::Streaming => StreamAction::Receive,
            StreamState::Backoff => StreamAction::Wait { secs: RECONNECT_DELAY_SECS },
        }
    }

    /// Takes in how the pending work ended, moves to the next state and
    /// returns the sample that the event yields, if any.
    pub fn step(&mut self, event: StreamEvent) -> (sample: Option<Traffic>)
        ensures
            final(self)@ == next_state(old(self)@, event),
            sample == yielded(old(self)@, event),
    {
        match self.state {
            StreamState::Connecting => {
                match event {
                    StreamEvent::Connected => {
                        self.state = StreamState::Streaming;
                    },
                    StreamEvent::ConnectFailed | StreamEvent::EndpointMissing => {
                        self.state = StreamState::Backoff;
                    },
                    _ => {},
                }
                None
            },
            StreamState::Streaming => {
                match event {
                    StreamEvent::Message(text) => Some(Traffic::decode(text.as_str())),
                    StreamEvent::Unreadable => Some(Traffic::from_members(None, None)),
                    StreamEvent::Closed => {
                        self.state = StreamState::Backoff;
                        None
                    },
                    _ => None,
                }
            },
            StreamState::Backoff => {
                match event {
                    StreamEvent::DelayElapsed => {
                        self.state = StreamState::Connecting;
                    },
                    _ => {},
                }
                None
            },
        }
    }
}

impl Traffic {
    /// Opens the source of traffic samples. Every call gives an independent
    /// source that starts with a connection attempt of its own.
    pub fn get_traffic_stream() -> (stream: TrafficStream)
        ensures
            stream@ == StreamState::Connecting,
    {
        TrafficStream::new()
    }
}

/// No state is final: in every state some event moves the source on, and the
/// work that is pending there is the work that brings that event about.
pub proof fn lemma_never_stuck(state: StreamState)
    ensures
        exists|event: StreamEvent| next_state(state, event) != state,
        state is Connecting ==> pending(state) is Connect,
        state is Streaming ==> pending(state) is Receive,
        state is Backoff ==> pending(state) == (StreamAction::Wait { secs: RECONNECT_DELAY_SECS }),
{
    match state {
        StreamState::Connecting => {
            assert(next_state(state, StreamEvent::Connected) != state);
        },
        StreamState::Streaming => {
            assert(next_state(state, StreamEvent::Closed) != state);
        },
        StreamState::Backoff => {
            assert(next_state(state, StreamEvent::DelayElapsed) != state);
        },
    }
}

/// Every failure is followed by the delay: an endpoint that is missing, a
/// connection that cannot be opened and one that ends all lead to `Backoff`,
/// where the pending work is to wait [`RECONNECT_DELAY_SECS`] seconds.
pub proof fn lemma_failure_backs_off(state: StreamState, event: StreamEvent)
    requires
        (state is Connecting && (event is ConnectFailed || event is EndpointMissing)) || (state
            is Streaming && event is Closed),
    ensures
        next_state(state, event) is Backoff,
        pending(next_state(state, event)) == (StreamAction::Wait { secs: RECONNECT_DELAY_SECS }),
        yielded(state, event) is None,
{
}

/// A new connection attempt begins only when the delay is over: the one step
/// into `Connecting` is from `Backoff`, on `DelayElapsed`.
pub proof fn lemma_attempt_follows_delay(state: StreamState, event: StreamEvent)
    requires
        !(state is Connecting),
        next_state(state, event) is Connecting,
    ensures
        state is Backoff,
        event is DelayElapsed,
{
}

/// A frame changes nothing but what is shown: while streaming, every message
/// yields a sample and leaves the connection open, whatever its text.
pub proof fn lemma_bad_frame_keeps_streaming(event: StreamEvent)
    requires
        event is Message || event is Unreadable,
    ensures
        next_state(StreamState::Streaming, event) is Streaming,
        yielded(StreamState::Streaming, event) is Some,
        event matches StreamEvent::Message(text) && json_document(text@) is None ==> yielded(
            StreamState::Streaming,
            event,
        ) == Some(Traffic { up: 0, down: 0 }),
{
}

/// Over any sequence of events: a source that is not connecting and ends up
/// connecting has, at some point on the way, been in `Backoff` and seen the
/// delay elapse there.
pub proof fn lemma_reconnect_waits(state: StreamState, events: Seq<StreamEvent>)
    requires
        !(state is Connecting),
        run(state, events) is Connecting,
    ensures
        exists|k: int|
            0 <= k < events.len() && run(state, #[trigger] events.take(k)) is Backoff
                && events[k] is DelayElapsed,
    decreases events.len(),
{
    if events.len() > 0 {
        let before = events.drop_last();
        let last = events.len() - 1;
        assert(events.take(last) =~= before);
        if run(state, before) is Connecting {
            lemma_reconnect_waits(state, before);
            let k = choose|k: int|
                0 <= k < before.len() && run(state, #[trigger] before.take(k)) is Backoff
                    && before[k] is DelayElapsed;
            assert(events.take(k) =~= before.take(k));
        } else {
            lemma_attempt_follows_delay(run(state, before), events.last());
        }
    }
}

} // verus!
