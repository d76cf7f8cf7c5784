use pv_core::error::{CoreError, DecodeFault, EncodeFault, ReadExactFault};
use pv_core::framing::{length_prefix, payload_length, ByteStream};
use pv_core::network::{frame_packet, read_failed, recv_packet, send_packet, Packet, Request, Response};

fn standard_bytes_of_request(tag: u32, value: u64) -> Vec<u8> {
    bincode::encode_to_vec((tag, value), bincode::config::standard()).unwrap()
}

fn frame(data: Vec<u32>, width: u32, height: u32) -> Response {
    Response::Frame { data, width, height }
}

#[test]
fn request_payload_has_the_documented_bytes() {
    assert_eq!(Request::Ping(5).encode().unwrap(), vec![0u8, 5]);
    assert_eq!(Request::VideoStream(0).encode().unwrap(), vec![1u8, 0]);
    assert_eq!(Request::Ping(250).encode().unwrap(), vec![0u8, 250]);
    assert_eq!(Request::Ping(251).encode().unwrap(), vec![0u8, 251, 251, 0]);
    assert_eq!(Request::Ping(0x1234).encode().unwrap(), vec![0u8, 251, 0x34, 0x12]);
    assert_eq!(
        Request::Ping(0x1_0000).encode().unwrap(),
        vec![0u8, 252, 0, 0, 1, 0]
    );
    assert_eq!(
        Request::Ping(12313897890).encode().unwrap(),
        vec![0u8, 253, 0xa2, 0x2b, 0xf7, 0xdd, 0x02, 0, 0, 0]
    );
    assert_eq!(
        Request::VideoStream(u64::MAX).encode().unwrap(),
        vec![1u8, 253, 255, 255, 255, 255, 255, 255, 255, 255]
    );
}

#[test]
fn request_payload_is_the_standard_encoding_of_tag_and_field() {
    for value in [0u64, 1, 250, 251, 65535, 65536, 12313897890, u64::MAX] {
        assert_eq!(
            Request::Ping(value).encode().unwrap(),
            standard_bytes_of_request(0, value)
        );
        assert_eq!(
            Request::VideoStream(value).encode().unwrap(),
            standard_bytes_of_request(1, value)
        );
    }
}

#[test]
fn response_payload_is_the_standard_encoding_of_tag_and_fields() {
    assert_eq!(
        Response::Pong(77).encode().unwrap(),
        bincode::encode_to_vec((0u32, 77u64), bincode::config::standard()).unwrap()
    );
    let data: Vec<u32> = vec![0, 250, 251, 70000, u32::MAX];
    let expected =
        bincode::encode_to_vec((1u32, data.clone(), 640u32, 480u32), bincode::config::standard())
            .unwrap();
    assert_eq!(frame(data, 640, 480).encode().unwrap(), expected);
}

#[test]
fn frame_payload_has_the_documented_bytes() {
    let bytes = frame(vec![1, 300], 2, 1).encode().unwrap();
    assert_eq!(bytes, vec![1u8, 2, 1, 251, 0x2c, 0x01, 2, 1]);
    let empty = frame(vec![], 0, 0).encode().unwrap();
    assert_eq!(empty, vec![1u8, 0, 0, 0]);
}

#[test]
fn requests_round_trip() {
    for value in [0u64, 1, 250, 251, 65535, 65536, u32::MAX as u64, 1 << 32, u64::MAX] {
        for request in [Request::Ping(value), Request::VideoStream(value)] {
            let bytes = request.encode().unwrap();
            assert_eq!(Request::decode(&bytes), Ok(request));
        }
    }
}

#[test]
fn responses_round_trip() {
    let cases = vec![
        Response::Pong(0),
        Response::Pong(u64::MAX),
        frame(vec![], 0, 0),
        frame(vec![], 7, 9),
        frame(vec![0, 1, 250, 251, 65535, 65536, u32::MAX], 7, 1),
        frame(vec![128; 640 * 480], 640, 480),
        frame(vec![9, 9], u32::MAX, u32::MAX),
    ];
    for response in cases {
        let bytes = response.encode().unwrap();
        assert_eq!(Response::decode(&bytes).unwrap(), response);
    }
}

#[test]
fn decode_leaves_trailing_bytes_alone() {
    assert_eq!(Request::decode(&[0, 5, 99, 98]), Ok(Request::Ping(5)));
    assert_eq!(Response::decode(&[0, 5, 99, 98]).unwrap(), Response::Pong(5));
}

#[test]
fn decode_accepts_a_wider_form_than_needed() {
    assert_eq!(Request::decode(&[251, 1, 0, 251, 5, 0]), Ok(Request::VideoStream(5)));
}

#[test]
fn decode_reports_truncated_bytes() {
    assert_eq!(Request::decode(&[]), Err(DecodeFault::UnexpectedEnd));
    assert_eq!(Request::decode(&[0]), Err(DecodeFault::UnexpectedEnd));
    assert_eq!(Request::decode(&[0, 253, 1, 2, 3]), Err(DecodeFault::UnexpectedEnd));
    assert_eq!(Request::decode(&[251, 0]), Err(DecodeFault::UnexpectedEnd));
    assert_eq!(Response::decode(&[]).unwrap_err(), DecodeFault::UnexpectedEnd);
    assert_eq!(Response::decode(&[1]).unwrap_err(), DecodeFault::UnexpectedEnd);
    assert_eq!(Response::decode(&[1, 3, 7, 7]).unwrap_err(), DecodeFault::UnexpectedEnd);
    assert_eq!(Response::decode(&[1, 2, 7, 7, 4]).unwrap_err(), DecodeFault::UnexpectedEnd);
    let whole = frame(vec![1, 2, 3], 3, 1).encode().unwrap();
    for kept in 0..whole.len() {
        assert_eq!(
            Response::decode(&whole[..kept]).unwrap_err(),
            DecodeFault::UnexpectedEnd
        );
    }
}

#[test]
fn decode_reports_a_pixel_count_that_the_bytes_cannot_hold() {
    let mut bytes = vec![1u8, 253];
    bytes.extend_from_slice(&u64::MAX.to_le_bytes());
    bytes.extend_from_slice(&[1, 2, 3]);
    assert_eq!(Response::decode(&bytes).unwrap_err(), DecodeFault::UnexpectedEnd);
}

#[test]
fn decode_reports_an_unknown_tag() {
    assert_eq!(
        Request::decode(&[2, 0]),
        Err(DecodeFault::UnexpectedVariant { found: 2 })
    );
    assert_eq!(
        Request::decode(&[251, 0x2c, 0x01, 0]),
        Err(DecodeFault::UnexpectedVariant { found: 300 })
    );
    assert_eq!(
        Response::decode(&[7, 0]).unwrap_err(),
        DecodeFault::UnexpectedVariant { found: 7 }
    );
}

#[test]
fn decode_reports_a_marker_that_the_type_does_not_admit() {
    assert_eq!(
        Request::decode(&[253, 0, 0, 0, 0, 0, 0, 0, 0, 0]),
        Err(DecodeFault::InvalidIntegerType)
    );
    assert_eq!(Request::decode(&[254]), Err(DecodeFault::InvalidIntegerType));
    assert_eq!(Request::decode(&[0, 254]), Err(DecodeFault::InvalidIntegerType));
    assert_eq!(Request::decode(&[0, 255]), Err(DecodeFault::InvalidIntegerType));
    assert_eq!(
        Response::decode(&[1, 1, 253, 0, 0, 0, 0, 0, 0, 0, 0, 1, 1]).unwrap_err(),
        DecodeFault::InvalidIntegerType
    );
}

#[test]
fn a_pong_reads_as_a_ping_and_a_frame_as_a_stream_request() {
    let pong = Response::Pong(12313897890).encode().unwrap();
    assert!(matches!(Request::decode(&pong), Ok(Request::Ping(12313897890))));
    let frame = frame(vec![0; 640 * 480], 640, 480).encode().unwrap();
    assert!(matches!(Request::decode(&frame), Ok(Request::VideoStream(307200))));
}

#[test]
fn length_prefix_is_big_endian() {
    assert_eq!(length_prefix(0), Ok([0, 0, 0, 0]));
    assert_eq!(length_prefix(1), Ok([0, 0, 0, 1]));
    assert_eq!(length_prefix(0x0102_0304), Ok([1, 2, 3, 4]));
    assert_eq!(length_prefix(u32::MAX as usize), Ok([255, 255, 255, 255]));
    assert_eq!(length_prefix(0x0102_0304), Ok(0x0102_0304u32.to_be_bytes()));
}

#[test]
fn length_prefix_refuses_what_four_bytes_cannot_state() {
    if usize::BITS > 32 {
        let too_long = (u32::MAX as u64 + 1) as usize;
        assert_eq!(length_prefix(too_long), Err(EncodeFault::PayloadTooLarge));
        assert_eq!(length_prefix(usize::MAX), Err(EncodeFault::PayloadTooLarge));
    }
}

#[test]
fn payload_length_reads_a_prefix_back() {
    assert_eq!(payload_length(&[0, 0, 0, 0]), 0);
    assert_eq!(payload_length(&[1, 2, 3, 4]), 0x0102_0304);
    assert_eq!(payload_length(&[255, 255, 255, 255]), u32::MAX);
    for len in [0usize, 1, 255, 256, 65536, 0x00ab_cdef, u32::MAX as usize] {
        assert_eq!(payload_length(&length_prefix(len).unwrap()) as usize, len);
    }
}

#[test]
fn frame_packet_puts_the_length_before_the_payload() {
    assert_eq!(frame_packet(&Request::Ping(5)), Ok(vec![0, 0, 0, 2, 0, 5]));
    assert_eq!(
        frame_packet(&Request::Ping(12313897890)),
        Ok(vec![0, 0, 0, 10, 0, 253, 0xa2, 0x2b, 0xf7, 0xdd, 0x02, 0, 0, 0])
    );
    let big = frame(vec![70000; 1000], 40, 25);
    let framed = frame_packet(&big).unwrap();
    let payload = big.encode().unwrap();
    assert_eq!(framed[..4], (payload.len() as u32).to_be_bytes());
    assert_eq!(framed[4..], payload[..]);
}

#[test]
fn byte_stream_reads_what_was_written() {
    let mut stream = ByteStream::new();
    assert_eq!(stream.remaining(), 0);
    stream.write_all(&[1, 2, 3]);
    stream.write_all(&[4, 5]);
    assert_eq!(stream.remaining(), 5);
    assert_eq!(stream.read_exact(2), Ok(vec![1, 2]));
    assert_eq!(stream.read_exact(0), Ok(vec![]));
    assert_eq!(stream.remaining(), 3);
    assert_eq!(stream.read_exact(4), Err(ReadExactFault::FinishedEarly(3)));
    assert_eq!(stream.remaining(), 0);
    assert_eq!(stream.read_exact(1), Err(ReadExactFault::FinishedEarly(0)));
    let mut stream = ByteStream::from_bytes(vec![9, 8, 7]);
    assert_eq!(stream.read_exact(3), Ok(vec![9, 8, 7]));
}

#[test]
fn a_sent_packet_is_received() {
    let mut stream = ByteStream::new();
    send_packet(&mut stream, Request::Ping(12313897890)).unwrap();
    send_packet(&mut stream, Request::VideoStream(0)).unwrap();
    assert_eq!(recv_packet::<Request>(&mut stream), Ok(Request::Ping(12313897890)));
    assert_eq!(recv_packet::<Request>(&mut stream), Ok(Request::VideoStream(0)));
    assert_eq!(
        recv_packet::<Request>(&mut stream),
        Err(CoreError::ReadExactError(ReadExactFault::EndOfStream))
    );
    let mut stream = ByteStream::new();
    let sent = frame(vec![5; 12], 4, 3);
    send_packet(&mut stream, sent.clone()).unwrap();
    assert_eq!(recv_packet::<Response>(&mut stream).unwrap(), sent);
    assert_eq!(stream.remaining(), 0);
}

#[test]
fn a_truncated_frame_is_a_read_fault() {
    let whole = frame_packet(&frame(vec![1, 2, 3, 400], 2, 2)).unwrap();
    for kept in 0..whole.len() {
        let mut stream = ByteStream::from_bytes(whole[..kept].to_vec());
        let expected = if kept == 0 {
            ReadExactFault::EndOfStream
        } else if kept < 4 {
            ReadExactFault::FinishedEarly(kept)
        } else {
            ReadExactFault::FinishedEarly(kept - 4)
        };
        assert_eq!(
            recv_packet::<Response>(&mut stream).unwrap_err(),
            CoreError::ReadExactError(expected)
        );
        assert_eq!(stream.remaining(), 0);
    }
}

#[test]
fn a_frame_that_declares_more_than_it_holds_is_a_read_fault() {
    let mut stream = ByteStream::from_bytes(vec![0, 0, 0, 9, 0, 5]);
    assert_eq!(
        recv_packet::<Request>(&mut stream),
        Err(CoreError::ReadExactError(ReadExactFault::FinishedEarly(2)))
    );
}

#[test]
fn a_bad_payload_is_a_decode_error_and_takes_only_its_frame() {
    let mut stream = ByteStream::from_bytes(vec![0, 0, 0, 2, 9, 0, 0, 0, 0, 2, 0, 7]);
    assert_eq!(
        recv_packet::<Request>(&mut stream),
        Err(CoreError::DecodeError(DecodeFault::UnexpectedVariant { found: 9 }))
    );
    assert_eq!(recv_packet::<Request>(&mut stream), Ok(Request::Ping(7)));
    let mut stream = ByteStream::from_bytes(vec![0, 0, 0, 1, 0]);
    assert_eq!(
        recv_packet::<Request>(&mut stream),
        Err(CoreError::DecodeError(DecodeFault::UnexpectedEnd))
    );
    let mut stream = ByteStream::from_bytes(vec![0, 0, 0, 0]);
    assert_eq!(
        recv_packet::<Request>(&mut stream),
        Err(CoreError::DecodeError(DecodeFault::UnexpectedEnd))
    );
}

#[test]
fn a_failed_read_is_a_clean_end_only_between_messages() {
    assert_eq!(
        read_failed(true, ReadExactFault::FinishedEarly(0)),
        CoreError::ReadExactError(ReadExactFault::EndOfStream)
    );
    assert_eq!(
        read_failed(false, ReadExactFault::FinishedEarly(0)),
        CoreError::ReadExactError(ReadExactFault::FinishedEarly(0))
    );
    assert_eq!(
        read_failed(true, ReadExactFault::FinishedEarly(2)),
        CoreError::ReadExactError(ReadExactFault::FinishedEarly(2))
    );
    assert_eq!(
        read_failed(true, ReadExactFault::ReadError(pv_core::error::ReadFault::ClosedStream)),
        CoreError::ReadExactError(ReadExactFault::ReadError(
            pv_core::error::ReadFault::ClosedStream
        ))
    );
}

#[test]
fn well_formed_frames_are_told_apart() {
    assert!(frame(vec![1, 2, 3, 4, 5, 6], 3, 2).is_well_formed_frame());
    assert!(!frame(vec![1, 2, 3, 4, 5], 3, 2).is_well_formed_frame());
    assert!(!frame(vec![], 0, 0).is_well_formed_frame());
    assert!(!frame(vec![], 0, 5).is_well_formed_frame());
    assert!(!frame(vec![1], u32::MAX, u32::MAX).is_well_formed_frame());
    assert!(!Response::Pong(1).is_well_formed_frame());
}

#[test]
fn sized_frames_are_told_apart() {
    assert!(frame(vec![1, 2, 3, 4, 5, 6], 3, 2).is_sized_frame());
    assert!(frame(vec![], 0, 0).is_sized_frame());
    assert!(frame(vec![], 0, 5).is_sized_frame());
    assert!(frame(vec![], u32::MAX, 0).is_sized_frame());
    assert!(!frame(vec![1], 0, 0).is_sized_frame());
    assert!(!frame(vec![1, 2, 3, 4, 5], 3, 2).is_sized_frame());
    assert!(!frame(vec![1], u32::MAX, u32::MAX).is_sized_frame());
    assert!(!Response::Pong(1).is_sized_frame());
}

#[test]
fn responses_compare_by_content() {
    assert_eq!(Response::Pong(1), Response::Pong(1));
    assert_ne!(Response::Pong(1), Response::Pong(2));
    assert_ne!(Response::Pong(1), frame(vec![], 0, 0));
    assert_eq!(frame(vec![1, 2], 2, 1), frame(vec![1, 2], 2, 1));
    assert_ne!(frame(vec![1, 2], 2, 1), frame(vec![1, 3], 2, 1));
    assert_ne!(frame(vec![1, 2], 2, 1), frame(vec![1, 2], 1, 2));
    assert_ne!(frame(vec![1, 2], 2, 1), frame(vec![1], 2, 1));
    let original = frame(vec![4, 5, 6], 3, 1);
    assert_eq!(original.clone(), original);
}
