//! The session and stream dispatcher of a producer, as state machines.
//!
//! The transport is driven elsewhere. Whoever drives it reports what happened
//! as an event and is told what to do next as an action. A connection accepts
//! streams; each stream carries one request and is served on its own.

use vstd::prelude::*;
use crate::error::ConnectionFault;
use crate::error::CoreError;
use crate::error::ServerError;
use crate::network::Request;
use crate::network::Response;
use crate::network::ResponseView;

verus! {

/// Where the serving of one stream stands. A request that was read is
/// dispatched in the same step: a ping to `Responding`, a stream request to
/// `Streaming`.
#[derive(Clone, Copy, Debug, PartialEq, Eq, Structural)]
pub enum StreamState {
    /// The one request of the stream is being read.
    RequestRead,
    /// The one response to a ping is being written.
    Responding,
    /// Frames are written as they become available. `in_flight` says that a
    /// frame is being written; otherwise the next frame is awaited.
    Streaming { in_flight: bool },
    /// The stream is done with, in success or in failure.
    Closed,
}

/// What happened on a stream.
#[derive(Debug)]
pub enum StreamEvent {
    /// The request was read and decoded.
    RequestReceived(Request),
    /// The request could not be read or decoded.
    ReceiveFailed(CoreError),
    /// The producer has a frame to send.
    FrameReady { data: Vec<u32>, width: u32, height: u32 },
    /// The producer has no more frames.
    SourceEnded,
    /// The response handed out last was written.
    Sent,
    /// The response handed out last could not be written.
    SendFailed(CoreError),
}

/// The mathematical content of a `StreamEvent`.
pub ghost enum StreamEventView {
    RequestReceived(Request),
    ReceiveFailed(CoreError),
    FrameReady { data: Seq<u32>, width: u32, height: u32 },
    SourceEnded,
    Sent,
    SendFailed(CoreError),
}

impl View for StreamEvent {
    type V = StreamEventView;

    open spec fn view(&self) -> StreamEventView {
        match *self {
            StreamEvent::RequestReceived(request) => StreamEventView::RequestReceived(request),
            StreamEvent::ReceiveFailed(error) => StreamEventView::ReceiveFailed(error),
            StreamEvent::FrameReady { data, width, height } => StreamEventView::FrameReady {
                data: data@,
                width,
                height,
            },
            StreamEvent::SourceEnded => StreamEventView::SourceEnded,
            StreamEvent::Sent => StreamEventView::Sent,
            StreamEvent::SendFailed(error) => StreamEventView::SendFailed(error),
        }
    }
}

/// What to do next on a stream.
#[derive(Debug)]
pub enum StreamAction {
    /// Write this response, then report `Sent` or `SendFailed`.
    Send(Response),
    /// Get the next frame, then report `FrameReady` or `SourceEnded`.
    AwaitFrame,
    /// Close the response side of the stream: it was served.
    Finish,
    /// Give the stream up and surface this error.
    Fail(ServerError),
    /// The event has no place in the stream's state: nothing changes.
    Nothing,
}

/// The mathematical content of a `StreamAction`.
pub ghost enum StreamActionView {
    Send(ResponseView),
    AwaitFrame,
    Finish,
    Fail(ServerError),
    Nothing,
}

impl View for StreamAction {
    type V = StreamActionView;

    open spec fn view(&self) -> StreamActionView {
        match *self {
            StreamAction::Send(response) => StreamActionView::Send(response@),
            StreamAction::AwaitFrame => StreamActionView::AwaitFrame,
            StreamAction::Finish => StreamActionView::Finish,
            StreamAction::Fail(error) => StreamActionView::Fail(error),
            StreamAction::Nothing => StreamActionView::Nothing,
        }
    }
}

/// The state that follows `event` in `state`, and what to do.
///
/// A ping is answered once with a pong of the same nonce, and the stream is
/// closed when the pong is written. A stream request is answered with frames,
/// one after the other, until the producer has no more or a write fails. A
/// request that cannot be read, and a response that cannot be written, close
/// the stream with the error. An event that has no place in the state leaves
/// it as it is.
pub open spec fn stream_step(state: StreamState, event: StreamEventView) -> (
    StreamState,
    StreamActionView,
) {
    match (state, event) {
        (StreamState::RequestRead, StreamEventView::RequestReceived(Request::Ping(nonce))) => (
            StreamState::Responding,
            StreamActionView::Send(ResponseView::Pong(nonce)),
        ),
        (StreamState::RequestRead, StreamEventView::RequestReceived(Request::VideoStream(_))) => (
            StreamState::Streaming { in_flight: false },
            StreamActionView::AwaitFrame,
        ),
        (StreamState::RequestRead, StreamEventView::ReceiveFailed(error)) => (
            StreamState::Closed,
            StreamActionView::Fail(ServerError::CoreError(error)),
        ),
        (StreamState::Responding, StreamEventView::Sent) => (
            StreamState::Closed,
            StreamActionView::Finish,
        ),
        (StreamState::Responding, StreamEventView::SendFailed(error)) => (
            StreamState::Closed,
            StreamActionView::Fail(ServerError::CoreError(error)),
        ),
        (
            StreamState::Streaming { in_flight: false },
            StreamEventView::FrameReady { data, width, height },
        ) => (
            StreamState::Streaming { in_flight: true },
            StreamActionView::Send(ResponseView::Frame { data, width, height }),
        ),
        (StreamState::Streaming { in_flight: false }, StreamEventView::SourceEnded) => (
            StreamState::Closed,
            StreamActionView::Finish,
        ),
        (StreamState::Streaming { in_flight: true }, StreamEventView::Sent) => (
            StreamState::Streaming { in_flight: false },
            StreamActionView::AwaitFrame,
        ),
        (StreamState::Streaming { in_flight: true }, StreamEventView::SendFailed(error)) => (
            StreamState::Closed,
            StreamActionView::Fail(ServerError::CoreError(error)),
        ),
        _ => (state, StreamActionView::Nothing),
    }
}

/// The serving of one stream.
#[derive(Debug)]
pub struct StreamSession {
    state: StreamState,
}

impl View for StreamSession {
    type V = StreamState;

    closed spec fn view(&self) -> StreamState {
        self.state
    }
}

impl StreamSession {
    /// The session of a stream that was just accepted.
    pub fn new() -> (session: Self)
        ensures
            session@ == StreamState::RequestRead,
    {
        StreamSession { state: StreamState::RequestRead }
    }

    /// Where the session stands.
    pub fn state(&self) -> (state: StreamState)
        ensures
            state == self@,
    {
        self.state
    }

    /// Takes `event` in and says what to do next.
    pub fn step(&mut self, event: StreamEvent) -> (action: StreamAction)
        ensures
            (final(self)@, action@) == stream_step(old(self)@, event@),
    {
        let (next, action) = match (self.state, event) {
            (StreamState::RequestRead, StreamEvent::RequestReceived(Request::Ping(nonce))) => (
                StreamState::Responding,
                StreamAction::Send(Response::Pong(nonce)),
            ),
            (StreamState::RequestRead, StreamEvent::RequestReceived(Request::VideoStream(_))) => (
                StreamState::Streaming { in_flight: false },
                StreamAction::AwaitFrame,
            ),
            (StreamState::RequestRead, StreamEvent::ReceiveFailed(error)) => (
                StreamState::Closed,
                StreamAction::Fail(ServerError::CoreError(error)),
            ),
            (StreamState::Responding, StreamEvent::Sent) => (
                StreamState::Closed,
                StreamAction::Finish,
            ),
            (StreamState::Responding, StreamEvent::SendFailed(error)) => (
                StreamState::Closed,
                StreamAction::Fail(ServerError::CoreError(error)),
            ),
            (
                StreamState::Streaming { in_flight: false },
                StreamEvent::FrameReady { data, width, height },
            ) => (
                StreamState::Streaming { in_flight: true },
                StreamAction::Send(Response::Frame { data, width, height }),
            ),
            (StreamState::Streaming { in_flight: false }, StreamEvent::SourceEnded) => (
                StreamState::Closed,
                StreamAction::Finish,
            ),
            (StreamState::Streaming { in_flight: true }, StreamEvent::Sent) => (
                StreamState::Streaming { in_flight: false },
                StreamAction::AwaitFrame,
            ),
            (StreamState::Streaming { in_flight: true }, StreamEvent::SendFailed(error)) => (
                StreamState::Closed,
                StreamAction::Fail(ServerError::CoreError(error)),
            ),
            (state, _) => (state, StreamAction::Nothing),
        };
        self.state = next;
        action
    }
}

/// Every response that a stream request is answered with is a frame.
pub proof fn lemma_streaming_sends_frames(in_flight: bool, event: StreamEventView)
    ensures
        stream_step(StreamState::Streaming { in_flight }, event).1 matches StreamActionView::Send(
            response,
        ) ==> response is Frame,
{
}

/// A closed stream stays closed and asks for nothing.
pub proof fn lemma_closed_is_final(event: StreamEventView)
    ensures
        stream_step(StreamState::Closed, event) == (StreamState::Closed, StreamActionView::Nothing),
{
}

/// Where a connection stands.
#[derive(Clone, Copy, Debug, PartialEq, Eq, Structural)]
pub enum ConnectionState {
    /// The connection is being set up.
    Accepting,
    /// The connection stands and streams are accepted on it.
    Established,
    /// No more streams are accepted.
    Closed,
}

/// What happened on a connection.
#[derive(Clone, Copy, Debug, PartialEq, Eq, Structural)]
pub enum ConnectionEvent {
    /// The connection was set up.
    Connected,
    /// The connection could not be set up.
    ConnectFailed(ConnectionFault),
    /// The peer opened a stream.
    StreamAccepted,
    /// No stream could be accepted.
    AcceptFailed(ConnectionFault),
}

/// What to do next on a connection.
#[derive(Clone, Copy, Debug, PartialEq, Eq, Structural)]
pub enum ConnectionAction {
    /// Wait for the peer to open a stream.
    Accept,
    /// Serve the stream that was accepted, under this handle and on its
    /// own, and wait for the next one.
    Serve { stream: usize },
    /// Stop accepting: the peer closed the connection.
    Finish,
    /// Stop accepting and surface this error.
    Fail(ServerError),
    /// The event has no place in the connection's state: nothing changes.
    Nothing,
}

/// The mathematical content of a `Connection`: where it stands, and where
/// each of its streams stands, by handle.
pub ghost struct ConnectionView {
    pub state: ConnectionState,
    pub streams: Seq<StreamState>,
}

/// What to do when `event` happens on `connection`.
///
/// Once the connection is set up, each stream that the peer opens is served
/// under the next handle. When the peer's application closes the connection,
/// accepting ends without an error; any other failure is surfaced.
pub open spec fn connection_action(
    connection: ConnectionView,
    event: ConnectionEvent,
) -> ConnectionAction {
    match (connection.state, event) {
        (ConnectionState::Accepting, ConnectionEvent::Connected) => ConnectionAction::Accept,
        (ConnectionState::Accepting, ConnectionEvent::ConnectFailed(fault)) => ConnectionAction::Fail(
            ServerError::ConnectionError(fault),
        ),
        (ConnectionState::Established, ConnectionEvent::StreamAccepted) => ConnectionAction::Serve {
            stream: connection.streams.len() as usize,
        },
        (
            ConnectionState::Established,
            ConnectionEvent::AcceptFailed(ConnectionFault::ApplicationClosed),
        ) => ConnectionAction::Finish,
        (ConnectionState::Established, ConnectionEvent::AcceptFailed(fault)) => ConnectionAction::Fail(
            ServerError::ConnectionError(fault),
        ),
        _ => ConnectionAction::Nothing,
    }
}

/// The connection after `event`. A stream that is accepted starts in
/// `RequestRead`; the streams that were there are left as they are.
pub open spec fn connection_after(
    connection: ConnectionView,
    event: ConnectionEvent,
) -> ConnectionView {
    match (connection.state, event) {
        (ConnectionState::Accepting, ConnectionEvent::Connected) => ConnectionView {
            state: ConnectionState::Established,
            streams: connection.streams,
        },
        (ConnectionState::Accepting, ConnectionEvent::ConnectFailed(_)) => ConnectionView {
            state: ConnectionState::Closed,
            streams: connection.streams,
        },
        (ConnectionState::Established, ConnectionEvent::StreamAccepted) => ConnectionView {
            state: ConnectionState::Established,
            streams: connection.streams.push(StreamState::RequestRead),
        },
        (ConnectionState::Established, ConnectionEvent::AcceptFailed(_)) => ConnectionView {
            state: ConnectionState::Closed,
            streams: connection.streams,
        },
        _ => connection,
    }
}

/// The connection after `event` on its stream `stream`: that stream takes
/// its step, and nothing else changes. A handle that names no stream changes
/// nothing.
pub open spec fn stream_delivered(
    connection: ConnectionView,
    stream: int,
    event: StreamEventView,
) -> ConnectionView {
    if 0 <= stream < connection.streams.len() {
        ConnectionView {
            state: connection.state,
            streams: connection.streams.update(
                stream,
                stream_step(connection.streams[stream], event).0,
            ),
        }
    } else {
        connection
    }
}

/// What to do when `event` happens on the stream `stream` of `connection`.
pub open spec fn stream_action(
    connection: ConnectionView,
    stream: int,
    event: StreamEventView,
) -> StreamActionView {
    if 0 <= stream < connection.streams.len() {
        stream_step(connection.streams[stream], event).1
    } else {
        StreamActionView::Nothing
    }
}

/// One connection of a producer and the streams that were accepted on it.
#[derive(Debug)]
pub struct Connection {
    state: ConnectionState,
    streams: Vec<StreamSession>,
}

impl View for Connection {
    type V = ConnectionView;

    closed spec fn view(&self) -> ConnectionView {
        ConnectionView {
            state: self.state,
            streams: Seq::new(self.streams@.len(), |i: int| self.streams@[i]@),
        }
    }
}

impl Connection {
    /// A connection that is being set up.
    pub fn new() -> (connection: Self)
        ensures
            connection@ == (ConnectionView {
                state: ConnectionState::Accepting,
                streams: Seq::empty(),
            }),
    {
        let connection = Connection { state: ConnectionState::Accepting, streams: Vec::new() };
        assert(connection@.streams =~= Seq::<StreamState>::empty());
        connection
    }

    /// Where the connection stands.
    pub fn state(&self) -> (state: ConnectionState)
        ensures
            state == self@.state,
    {
        self.state
    }

    /// How many streams were accepted.
    pub fn stream_count(&self) -> (count: usize)
        ensures
            count == self@.streams.len(),
    {
        self.streams.len()
    }

    /// Where the stream `stream` stands, if there is one.
    pub fn stream_state(&self, stream: usize) -> (state: Option<StreamState>)
        ensures
            state == if stream < self@.streams.len() {
                Some(self@.streams[stream as int])
            } else {
                None
            },
    {
        if stream < self.streams.len() {
            Some(self.streams[stream].state())
        } else {
            None
        }
    }

    /// Takes in what happened on the connection and says what to do next.
    pub fn step(&mut self, event: ConnectionEvent) -> (action: ConnectionAction)
        ensures
            action == connection_action(old(self)@, event),
            final(self)@ == connection_after(old(self)@, event),
    {
        match (self.state, event) {
            (ConnectionState::Accepting, ConnectionEvent::Connected) => {
                self.state = ConnectionState::Established;
                assert(self@.streams =~= old(self)@.streams);
                ConnectionAction::Accept
            },
            (ConnectionState::Accepting, ConnectionEvent::ConnectFailed(fault)) => {
                self.state = ConnectionState::Closed;
                assert(self@.streams =~= old(self)@.streams);
                ConnectionAction::Fail(ServerError::ConnectionError(fault))
            },
            (ConnectionState::Established, ConnectionEvent::StreamAccepted) => {
                let stream = self.streams.len();
                self.streams.push(StreamSession::new());
                assert(self@.streams =~= old(self)@.streams.push(StreamState::RequestRead));
                ConnectionAction::Serve { stream }
            },
            (ConnectionState::Established, ConnectionEvent::AcceptFailed(fault)) => {
                self.state = ConnectionState::Closed;
                assert(self@.streams =~= old(self)@.streams);
                match fault {
                    ConnectionFault::ApplicationClosed => ConnectionAction::Finish,
                    _ => ConnectionAction::Fail(ServerError::ConnectionError(fault)),
                }
            },
            _ => ConnectionAction::Nothing,
        }
    }

    /// Takes in what happened on the stream `stream` and says what to do
    /// next on it.
    pub fn stream_step(&mut self, stream: usize, event: StreamEvent) -> (action: StreamAction)
        ensures
            action@ == stream_action(old(self)@, stream as int, event@),
            final(self)@ == stream_delivered(old(self)@, stream as int, event@),
    {
        if stream >= self.streams.len() {
            return StreamAction::Nothing;
        }
        let mut session = StreamSession { state: self.streams[stream].state() };
        let action = session.step(event);
        self.streams.set(stream, session);
        assert(self@.streams =~= old(self)@.streams.update(
            stream as int,
            stream_step(old(self)@.streams[stream as int], event@).0,
        ));
        action
    }
}

/// What happens on one stream of a connection touches no other stream and
/// not the connection: after any event on the stream `troubled`, a ping on
/// another stream that awaits its request is still answered with its pong,
/// and that stream is served to its end.
pub proof fn lemma_stream_isolation(
    connection: ConnectionView,
    troubled: int,
    other: int,
    event: StreamEventView,
    nonce: u64,
)
    requires
        0 <= troubled < connection.streams.len(),
        0 <= other < connection.streams.len(),
        troubled != other,
        connection.streams[other] == StreamState::RequestRead,
    ensures
        stream_delivered(connection, troubled, event).state == connection.state,
        stream_delivered(connection, troubled, event).streams[other] == StreamState::RequestRead,
        stream_action(
            stream_delivered(connection, troubled, event),
            other,
            StreamEventView::RequestReceived(Request::Ping(nonce)),
        ) == StreamActionView::Send(ResponseView::Pong(nonce)),
        ({
            let pinged = stream_delivered(
                stream_delivered(connection, troubled, event),
                other,
                StreamEventView::RequestReceived(Request::Ping(nonce)),
            );
            &&& pinged.streams[other] == StreamState::Responding
            &&& stream_action(pinged, other, StreamEventView::Sent) == StreamActionView::Finish
            &&& stream_delivered(pinged, other, StreamEventView::Sent).streams[other]
                == StreamState::Closed
        }),
{
}

/// A request that cannot be read or decoded closes its stream with the
/// error, and only its stream.
pub proof fn lemma_bad_request_fails_its_stream(
    connection: ConnectionView,
    stream: int,
    error: CoreError,
)
    requires
        0 <= stream < connection.streams.len(),
        connection.streams[stream] == StreamState::RequestRead,
    ensures
        stream_action(connection, stream, StreamEventView::ReceiveFailed(error))
            == StreamActionView::Fail(ServerError::CoreError(error)),
        stream_delivered(connection, stream, StreamEventView::ReceiveFailed(error)).state
            == connection.state,
        stream_delivered(connection, stream, StreamEventView::ReceiveFailed(error)).streams
            == connection.streams.update(stream, StreamState::Closed),
{
}

} // verus!
