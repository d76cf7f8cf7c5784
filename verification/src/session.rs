//! The consumer's session: the handshake with the producer, the hand-over to
//! ingestion and rendering, and the teardown, as a state machine.

use vstd::prelude::*;
use crate::error::CoreError;
use crate::network::is_well_formed_frame;
use crate::network::Request;
use crate::network::Response;
use crate::network::ResponseView;

verus! {

/// The nonce of the ping that a client opens its session with.
pub const PING_NONCE: u64 = 12313897890;

/// The offset at which a client asks the stream to begin, in milliseconds.
pub const STREAM_OFFSET: u64 = 0;

/// Where a consumer's session stands.
#[derive(Clone, Copy, Debug, PartialEq, Eq, Structural)]
pub enum SessionState {
    /// The connection is being set up.
    Connecting,
    /// The ping was sent; its pong is awaited.
    AwaitingPong,
    /// The stream was asked for; its first frame is awaited.
    AwaitingFirstFrame,
    /// Frames are ingested and rendered.
    Playing,
    /// The connection was closed; the release of its resources is awaited.
    Closing,
    /// The session ended as asked.
    Finished,
    /// The session ended in an error.
    Failed,
}

/// Why a handshake failed.
#[derive(Clone, Copy, Debug, PartialEq, Eq, Structural)]
pub enum HandshakeError {
    /// A request could not be sent, or its response not received.
    Exchange(CoreError),
    /// The producer answered with another message than was asked for.
    BadResponse,
}

/// What happened in a consumer's session.
#[derive(Debug)]
pub enum SessionEvent {
    /// The connection was set up.
    Connected,
    /// The response to the request handed out last was received.
    Received(Response),
    /// The request handed out last could not be sent, or its response not
    /// received.
    ExchangeFailed(CoreError),
    /// The user asked to quit.
    QuitRequested,
    /// The resources of the closed connection were released.
    Released,
}

/// The mathematical content of a `SessionEvent`.
pub ghost enum SessionEventView {
    Connected,
    Received(ResponseView),
    ExchangeFailed(CoreError),
    QuitRequested,
    Released,
}

impl View for SessionEvent {
    type V = SessionEventView;

    open spec fn view(&self) -> SessionEventView {
        match *self {
            SessionEvent::Connected => SessionEventView::Connected,
            SessionEvent::Received(response) => SessionEventView::Received(response@),
            SessionEvent::ExchangeFailed(error) => SessionEventView::ExchangeFailed(error),
            SessionEvent::QuitRequested => SessionEventView::QuitRequested,
            SessionEvent::Released => SessionEventView::Released,
        }
    }
}

/// What a consumer does next.
#[derive(Debug)]
pub enum SessionAction {
    /// Open a stream, send this request on it and receive one response;
    /// report `Received` or `ExchangeFailed`.
    Exchange(Request),
    /// Make the surface and the frame buffer with the dimensions of this
    /// first frame, paint it, and start ingestion and rendering on the
    /// stream it came from.
    Start(Response),
    /// Close the connection, wait for its resources and report `Released`.
    Close,
    /// The session is over.
    Done,
    /// The handshake failed; the session is over.
    Fail(HandshakeError),
    /// The event has no place in the session's state: nothing changes.
    Nothing,
}

/// The mathematical content of a `SessionAction`.
pub ghost enum SessionActionView {
    Exchange(Request),
    Start(ResponseView),
    Close,
    Done,
    Fail(HandshakeError),
    Nothing,
}

impl View for SessionAction {
    type V = SessionActionView;

    open spec fn view(&self) -> SessionActionView {
        match *self {
            SessionAction::Exchange(request) => SessionActionView::Exchange(request),
            SessionAction::Start(response) => SessionActionView::Start(response@),
            SessionAction::Close => SessionActionView::Close,
            SessionAction::Done => SessionActionView::Done,
            SessionAction::Fail(error) => SessionActionView::Fail(error),
            SessionAction::Nothing => SessionActionView::Nothing,
        }
    }
}

/// The state that follows `event` in `state`, and what to do.
///
/// The session pings with `nonce` and takes any pong for the answer, then
/// asks for the stream at `offset` and takes a well-formed frame for the
/// answer. Any other answer, and an exchange that fails, ends the session in
/// a handshake error. Once frames play, only the user's wish to quit ends
/// the session: the connection is closed first and its resources awaited.
pub open spec fn session_step(
    state: SessionState,
    nonce: u64,
    offset: u64,
    event: SessionEventView,
) -> (SessionState, SessionActionView) {
    match (state, event) {
        (SessionState::Connecting, SessionEventView::Connected) => (
            SessionState::AwaitingPong,
            SessionActionView::Exchange(Request::Ping(nonce)),
        ),
        (SessionState::AwaitingPong, SessionEventView::Received(response)) => if response is Pong {
            (
                SessionState::AwaitingFirstFrame,
                SessionActionView::Exchange(Request::VideoStream(offset)),
            )
        } else {
            (SessionState::Failed, SessionActionView::Fail(HandshakeError::BadResponse))
        },
        (
            SessionState::AwaitingFirstFrame,
            SessionEventView::Received(response),
        ) => if is_well_formed_frame(response) {
            (SessionState::Playing, SessionActionView::Start(response))
        } else {
            (SessionState::Failed, SessionActionView::Fail(HandshakeError::BadResponse))
        },
        (SessionState::AwaitingPong, SessionEventView::ExchangeFailed(error)) => (
            SessionState::Failed,
            SessionActionView::Fail(HandshakeError::Exchange(error)),
        ),
        (SessionState::AwaitingFirstFrame, SessionEventView::ExchangeFailed(error)) => (
            SessionState::Failed,
            SessionActionView::Fail(HandshakeError::Exchange(error)),
        ),
        (SessionState::Playing, SessionEventView::QuitRequested) => (
            SessionState::Closing,
            SessionActionView::Close,
        ),
        (SessionState::Closing, SessionEventView::Released) => (
            SessionState::Finished,
            SessionActionView::Done,
        ),
        _ => (state, SessionActionView::Nothing),
    }
}

/// The mathematical content of a `ClientSession`.
pub ghost struct ClientSessionView {
    pub state: SessionState,
    pub nonce: u64,
    pub offset: u64,
}

/// One session of a consumer.
#[derive(Debug)]
pub struct ClientSession {
    state: SessionState,
    nonce: u64,
    offset: u64,
}

impl View for ClientSession {
    type V = ClientSessionView;

    closed spec fn view(&self) -> ClientSessionView {
        ClientSessionView { state: self.state, nonce: self.nonce, offset: self.offset }
    }
}

impl ClientSession {
    /// A session that pings with `nonce` and asks for the stream at
    /// `offset`. Its connection is being set up.
    pub fn new(nonce: u64, offset: u64) -> (session: Self)
        ensures
            session@ == (ClientSessionView { state: SessionState::Connecting, nonce, offset }),
    {
        ClientSession { state: SessionState::Connecting, nonce, offset }
    }

    /// Where the session stands.
    pub fn state(&self) -> (state: SessionState)
        ensures
            state == self@.state,
    {
        self.state
    }

    /// Takes `event` in and says what to do next.
    pub fn step(&mut self, event: SessionEvent) -> (action: SessionAction)
        ensures
            (final(self)@.state, action@) == session_step(
                old(self)@.state,
                old(self)@.nonce,
                old(self)@.offset,
                event@,
            ),
            final(self)@.nonce == old(self)@.nonce,
            final(self)@.offset == old(self)@.offset,
    {
        let (next, action) = match (self.state, event) {
            (SessionState::Connecting, SessionEvent::Connected) => (
                SessionState::AwaitingPong,
                SessionAction::Exchange(Request::Ping(self.nonce)),
            ),
            (SessionState::AwaitingPong, SessionEvent::Received(response)) => match response {
                Response::Pong(_) => (
                    SessionState::AwaitingFirstFrame,
                    SessionAction::Exchange(Request::VideoStream(self.offset)),
                ),
                Response::Frame { .. } => (
                    SessionState::Failed,
                    SessionAction::Fail(HandshakeError::BadResponse),
                ),
            },
            (SessionState::AwaitingFirstFrame, SessionEvent::Received(response)) => {
                if response.is_well_formed_frame() {
                    (SessionState::Playing, SessionAction::Start(response))
                } else {
                    (SessionState::Failed, SessionAction::Fail(HandshakeError::BadResponse))
                }
            },
            (SessionState::AwaitingPong, SessionEvent::ExchangeFailed(error)) => (
                SessionState::Failed,
                SessionAction::Fail(HandshakeError::Exchange(error)),
            ),
            (SessionState::AwaitingFirstFrame, SessionEvent::ExchangeFailed(error)) => (
                SessionState::Failed,
                SessionAction::Fail(HandshakeError::Exchange(error)),
            ),
            (SessionState::Playing, SessionEvent::QuitRequested) => (
                SessionState::Closing,
                SessionAction::Close,
            ),
            (SessionState::Closing, SessionEvent::Released) => (
                SessionState::Finished,
                SessionAction::Done,
            ),
            (state, _) => (state, SessionAction::Nothing),
        };
        self.state = next;
        action
    }
}

} // verus!
