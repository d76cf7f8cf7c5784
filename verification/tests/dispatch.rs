use pv_core::dispatch::{
    Connection, ConnectionAction, ConnectionEvent, ConnectionState, StreamAction, StreamEvent,
    StreamSession, StreamState,
};
use pv_core::error::{
    ConnectionFault, CoreError, DecodeFault, ReadExactFault, ServerError, WriteFault,
};
use pv_core::framing::ByteStream;
use pv_core::network::{recv_packet, send_packet, Request, Response};
use pv_core::source::{TestPattern, TEST_FRAMES, TEST_HEIGHT, TEST_WIDTH};

fn sent(action: StreamAction) -> Response {
    match action {
        StreamAction::Send(response) => response,
        other => panic!("expected a response to send, got {:?}", other),
    }
}

fn failed(action: StreamAction) -> ServerError {
    match action {
        StreamAction::Fail(error) => error,
        other => panic!("expected a failure, got {:?}", other),
    }
}

fn established() -> Connection {
    let mut connection = Connection::new();
    assert_eq!(connection.step(ConnectionEvent::Connected), ConnectionAction::Accept);
    connection
}

#[test]
fn a_ping_is_answered_with_its_pong_on_the_same_stream() {
    let mut to_server = ByteStream::new();
    let mut to_client = ByteStream::new();
    send_packet(&mut to_server, Request::Ping(12313897890)).unwrap();

    let mut session = StreamSession::new();
    assert_eq!(session.state(), StreamState::RequestRead);
    let event = match recv_packet::<Request>(&mut to_server) {
        Ok(request) => StreamEvent::RequestReceived(request),
        Err(error) => StreamEvent::ReceiveFailed(error),
    };
    let response = sent(session.step(event));
    assert_eq!(response, Response::Pong(12313897890));
    assert_eq!(session.state(), StreamState::Responding);
    send_packet(&mut to_client, response).unwrap();
    assert!(matches!(session.step(StreamEvent::Sent), StreamAction::Finish));
    assert_eq!(session.state(), StreamState::Closed);

    assert_eq!(recv_packet::<Response>(&mut to_client).unwrap(), Response::Pong(12313897890));
    assert_eq!(
        recv_packet::<Response>(&mut to_client).unwrap_err(),
        CoreError::ReadExactError(ReadExactFault::EndOfStream)
    );
}

#[test]
fn a_stream_request_is_answered_with_frames() {
    let mut to_server = ByteStream::new();
    let mut to_client = ByteStream::new();
    send_packet(&mut to_server, Request::VideoStream(0)).unwrap();

    let mut session = StreamSession::new();
    let request = recv_packet::<Request>(&mut to_server).unwrap();
    let mut action = session.step(StreamEvent::RequestReceived(request));
    let mut source = TestPattern::new();
    for _ in 0..3 {
        assert!(matches!(action, StreamAction::AwaitFrame));
        assert_eq!(session.state(), StreamState::Streaming { in_flight: false });
        let event = match source.next_frame() {
            Some(Response::Frame { data, width, height }) => {
                StreamEvent::FrameReady { data, width, height }
            }
            _ => StreamEvent::SourceEnded,
        };
        let response = sent(session.step(event));
        assert_eq!(session.state(), StreamState::Streaming { in_flight: true });
        send_packet(&mut to_client, response).unwrap();
        action = session.step(StreamEvent::Sent);
    }

    for index in 0..3u32 {
        match recv_packet::<Response>(&mut to_client).unwrap() {
            Response::Frame { data, width, height } => {
                assert!(width > 0 && height > 0);
                assert_eq!(data.len(), width as usize * height as usize);
                assert_eq!((width, height), (640, 480));
                assert!(data.iter().all(|pixel| *pixel == index));
            }
            other => panic!("expected a frame, got {:?}", other),
        }
    }
}

#[test]
fn a_stream_ends_when_the_source_ends_or_a_write_fails() {
    let mut session = StreamSession::new();
    session.step(StreamEvent::RequestReceived(Request::VideoStream(5)));
    assert!(matches!(session.step(StreamEvent::SourceEnded), StreamAction::Finish));
    assert_eq!(session.state(), StreamState::Closed);

    let mut session = StreamSession::new();
    session.step(StreamEvent::RequestReceived(Request::VideoStream(5)));
    session.step(StreamEvent::FrameReady { data: vec![1], width: 1, height: 1 });
    let error = CoreError::WriteError(WriteFault::Stopped(3));
    assert_eq!(
        failed(session.step(StreamEvent::SendFailed(error))),
        ServerError::CoreError(error)
    );
    assert_eq!(session.state(), StreamState::Closed);
    assert!(matches!(session.step(StreamEvent::Sent), StreamAction::Nothing));
    assert!(matches!(
        session.step(StreamEvent::FrameReady { data: vec![1], width: 1, height: 1 }),
        StreamAction::Nothing
    ));
    assert_eq!(session.state(), StreamState::Closed);
}

#[test]
fn a_pong_that_cannot_be_written_fails_the_stream() {
    let mut session = StreamSession::new();
    session.step(StreamEvent::RequestReceived(Request::Ping(1)));
    let error = CoreError::WriteError(WriteFault::ConnectionLost(ConnectionFault::TimedOut));
    assert_eq!(
        failed(session.step(StreamEvent::SendFailed(error))),
        ServerError::CoreError(error)
    );
    assert_eq!(session.state(), StreamState::Closed);
}

#[test]
fn an_event_out_of_place_changes_nothing() {
    let mut session = StreamSession::new();
    assert!(matches!(session.step(StreamEvent::Sent), StreamAction::Nothing));
    assert!(matches!(session.step(StreamEvent::SourceEnded), StreamAction::Nothing));
    assert_eq!(session.state(), StreamState::RequestRead);
    session.step(StreamEvent::RequestReceived(Request::VideoStream(0)));
    assert!(matches!(session.step(StreamEvent::Sent), StreamAction::Nothing));
    assert!(matches!(
        session.step(StreamEvent::RequestReceived(Request::Ping(1))),
        StreamAction::Nothing
    ));
    assert_eq!(session.state(), StreamState::Streaming { in_flight: false });
    session.step(StreamEvent::FrameReady { data: vec![], width: 0, height: 0 });
    assert!(matches!(
        session.step(StreamEvent::FrameReady { data: vec![], width: 0, height: 0 }),
        StreamAction::Nothing
    ));
    assert!(matches!(session.step(StreamEvent::SourceEnded), StreamAction::Nothing));
    assert_eq!(session.state(), StreamState::Streaming { in_flight: true });
}

#[test]
fn an_unknown_request_fails_its_stream_only() {
    let mut connection = established();
    assert_eq!(
        connection.step(ConnectionEvent::StreamAccepted),
        ConnectionAction::Serve { stream: 0 }
    );
    assert_eq!(
        connection.step(ConnectionEvent::StreamAccepted),
        ConnectionAction::Serve { stream: 1 }
    );
    assert_eq!(connection.stream_count(), 2);

    let mut bad = ByteStream::from_bytes(vec![0, 0, 0, 2, 9, 0]);
    let mut good = ByteStream::new();
    send_packet(&mut good, Request::Ping(12313897890)).unwrap();

    let error = recv_packet::<Request>(&mut bad).unwrap_err();
    assert_eq!(error, CoreError::DecodeError(DecodeFault::UnexpectedVariant { found: 9 }));
    assert_eq!(
        failed(connection.stream_step(0, StreamEvent::ReceiveFailed(error))),
        ServerError::CoreError(error)
    );
    assert_eq!(connection.stream_state(0), Some(StreamState::Closed));
    assert_eq!(connection.stream_state(1), Some(StreamState::RequestRead));
    assert_eq!(connection.state(), ConnectionState::Established);

    let request = recv_packet::<Request>(&mut good).unwrap();
    let response = sent(connection.stream_step(1, StreamEvent::RequestReceived(request)));
    assert_eq!(response, Response::Pong(12313897890));
    assert!(matches!(connection.stream_step(1, StreamEvent::Sent), StreamAction::Finish));
    assert_eq!(connection.stream_state(1), Some(StreamState::Closed));
    assert_eq!(connection.state(), ConnectionState::Established);
    assert_eq!(
        connection.step(ConnectionEvent::StreamAccepted),
        ConnectionAction::Serve { stream: 2 }
    );
}

#[test]
fn a_truncated_request_fails_its_stream() {
    let mut connection = established();
    connection.step(ConnectionEvent::StreamAccepted);
    let mut cut = ByteStream::from_bytes(vec![0, 0, 0, 9, 0]);
    let error = recv_packet::<Request>(&mut cut).unwrap_err();
    assert_eq!(error, CoreError::ReadExactError(ReadExactFault::FinishedEarly(1)));
    assert_eq!(
        failed(connection.stream_step(0, StreamEvent::ReceiveFailed(error))),
        ServerError::CoreError(error)
    );
    assert_eq!(connection.stream_state(0), Some(StreamState::Closed));
}

#[test]
fn a_handle_that_names_no_stream_changes_nothing() {
    let mut connection = established();
    connection.step(ConnectionEvent::StreamAccepted);
    assert!(matches!(
        connection.stream_step(1, StreamEvent::RequestReceived(Request::Ping(1))),
        StreamAction::Nothing
    ));
    assert_eq!(connection.stream_state(0), Some(StreamState::RequestRead));
    assert_eq!(connection.stream_state(1), None);
}

#[test]
fn a_connection_closed_by_the_peer_ends_without_an_error() {
    let mut connection = established();
    assert_eq!(connection.state(), ConnectionState::Established);
    assert_eq!(
        connection.step(ConnectionEvent::AcceptFailed(ConnectionFault::ApplicationClosed)),
        ConnectionAction::Finish
    );
    assert_eq!(connection.state(), ConnectionState::Closed);
    assert_eq!(connection.step(ConnectionEvent::StreamAccepted), ConnectionAction::Nothing);
    assert_eq!(connection.stream_count(), 0);
}

#[test]
fn any_other_connection_failure_is_surfaced() {
    for fault in [
        ConnectionFault::VersionMismatch,
        ConnectionFault::TransportError,
        ConnectionFault::ConnectionClosed,
        ConnectionFault::Reset,
        ConnectionFault::TimedOut,
        ConnectionFault::LocallyClosed,
        ConnectionFault::CidsExhausted,
    ] {
        let mut connection = established();
        assert_eq!(
            connection.step(ConnectionEvent::AcceptFailed(fault)),
            ConnectionAction::Fail(ServerError::ConnectionError(fault))
        );
        assert_eq!(connection.state(), ConnectionState::Closed);
    }
}

#[test]
fn a_connection_that_cannot_be_set_up_fails() {
    let mut connection = Connection::new();
    assert_eq!(connection.state(), ConnectionState::Accepting);
    assert_eq!(connection.step(ConnectionEvent::StreamAccepted), ConnectionAction::Nothing);
    assert_eq!(
        connection.step(ConnectionEvent::ConnectFailed(ConnectionFault::ApplicationClosed)),
        ConnectionAction::Fail(ServerError::ConnectionError(ConnectionFault::ApplicationClosed))
    );
    assert_eq!(connection.state(), ConnectionState::Closed);
    assert_eq!(connection.step(ConnectionEvent::Connected), ConnectionAction::Nothing);
}

#[test]
fn a_test_pattern_yields_its_frames_and_ends() {
    assert_eq!((TEST_WIDTH, TEST_HEIGHT, TEST_FRAMES), (640, 480, 10000));
    let mut source = TestPattern::new();
    let first = source.next_frame().unwrap();
    assert!(first.is_well_formed_frame());
    assert_eq!(first, Response::Frame { data: vec![0; 640 * 480], width: 640, height: 480 });
    let second = source.next_frame().unwrap();
    assert_eq!(second, Response::Frame { data: vec![1; 640 * 480], width: 640, height: 480 });
}
