//! The wire codec: requests and responses, their payloads, and the
//! length-prefixed frames that carry them on a stream.

use vstd::prelude::*;
use vstd::std_specs::cmp::PartialEqSpecImpl;
use crate::error::CoreError;
use crate::error::DecodeFault;
use crate::error::EncodeFault;
use crate::error::ReadExactFault;
use crate::framing::be32;
use crate::framing::be32_value;
use crate::framing::frame;
use crate::framing::length_prefix;
use crate::framing::lemma_be32_roundtrip;
use crate::framing::payload_length;
use crate::framing::ByteStream;
use crate::varint::decode_u32;
use crate::varint::decode_u64;
use crate::varint::encode_u32;
use crate::varint::encode_u64;
use crate::varint::lemma_parse_u32_of_varint;
use crate::varint::lemma_parse_u64_of_varint;
use crate::varint::lemma_parse_varint_bounds;
use crate::varint::lemma_radix_values;
use crate::varint::parse_u32;
use crate::varint::varint;
use crate::wire::continued;
use crate::wire::lemma_continued_step;
use crate::wire::lemma_parse_pixels_bounds;
use crate::wire::lemma_parse_response_of_payload;
use crate::wire::lemma_pixels_payload_push;
use crate::wire::parse_frame;
use crate::wire::parse_pixels;
use crate::wire::parse_request;
use crate::wire::parse_response;
use crate::wire::pixels_payload;
use crate::wire::request_payload;
use crate::wire::response_payload;

verus! {

/// What a consumer asks of the producer.
#[derive(Clone, Copy, Debug, PartialEq, Eq, Structural)]
pub enum Request {
    /// Request a ping
    Ping(u64),
    /// Request to play a video stream at the given time offset (ms)
    VideoStream(u64),
}

/// What the producer answers.
#[derive(Debug)]
pub enum Response {
    /// Response to a ping request
    Pong(u64),
    /// Response Frame
    Frame {
        /// Frame data
        data: Vec<u32>,
        width: u32,
        height: u32,
    },
}

/// The mathematical content of a `Response`.
pub ghost enum ResponseView {
    Pong(u64),
    Frame { data: Seq<u32>, width: u32, height: u32 },
}

/// Whether a response is a frame that holds one pixel for each of its
/// points, row after row. A frame with no points holds no pixels.
pub open spec fn is_sized_frame(response: ResponseView) -> bool {
    response matches ResponseView::Frame { data, width, height } && data.len() == width * height
}

/// Whether a response is a frame of positive width and height that holds one
/// pixel for each of its points, row after row.
pub open spec fn is_well_formed_frame(response: ResponseView) -> bool {
    response matches ResponseView::Frame { data, width, height } && width > 0 && height > 0
        && data.len() == width * height
}

impl Response {
    /// Whether this is a frame with one pixel for each of its points.
    pub fn is_sized_frame(&self) -> (ok: bool)
        ensures
            ok == is_sized_frame(self@),
    {
        match self {
            Response::Pong(_) => false,
            Response::Frame { data, width, height } => {
                assert((*width as u64) * (*height as u64) <= 0xffff_ffff * 0xffff_ffff)
                    by (nonlinear_arith)
                    requires
                        *width <= 0xffff_ffff,
                        *height <= 0xffff_ffff,
                ;
                let points: u64 = (*width as u64) * (*height as u64);
                data.len() as u64 == points
            },
        }
    }

    /// Whether this is a frame of positive width and height with one pixel
    /// for each of its points.
    pub fn is_well_formed_frame(&self) -> (ok: bool)
        ensures
            ok == is_well_formed_frame(self@),
    {
        match self {
            Response::Pong(_) => false,
            Response::Frame { width, height, .. } => {
                *width > 0 && *height > 0 && self.is_sized_frame()
            },
        }
    }
}

impl Clone for Response {
    fn clone(&self) -> (copy: Self)
        ensures
            copy@ == self@,
    {
        match self {
            Response::Pong(nonce) => Response::Pong(*nonce),
            Response::Frame { data, width, height } => {
                let mut pixels: Vec<u32> = Vec::new();
                let mut i: usize = 0;
                while i < data.len()
                    invariant
                        i <= data.len(),
                        pixels@ == data@.take(i as int),
                    decreases data.len() - i,
                {
                    pixels.push(data[i]);
                    assert(data@.take(i + 1) =~= data@.take(i as int).push(data@[i as int]));
                    i += 1;
                }
                assert(data@.take(i as int) =~= data@);
                Response::Frame { data: pixels, width: *width, height: *height }
            },
        }
    }
}

/// Whether two runs of pixels are the same.
fn same_pixels(a: &Vec<u32>, b: &Vec<u32>) -> (same: bool)
    ensures
        same == (a@ == b@),
{
    if a.len() != b.len() {
        return false;
    }
    let mut i: usize = 0;
    while i < a.len()
        invariant
            i <= a.len(),
            a.len() == b.len(),
            a@.take(i as int) == b@.take(i as int),
        decreases a.len() - i,
    {
        if a[i] != b[i] {
            return false;
        }
        assert(a@.take(i + 1) =~= a@.take(i as int).push(a@[i as int]));
        assert(b@.take(i + 1) =~= b@.take(i as int).push(b@[i as int]));
        i += 1;
    }
    assert(a@.take(i as int) =~= a@);
    assert(b@.take(i as int) =~= b@);
    true
}

impl PartialEq for Response {
    fn eq(&self, other: &Response) -> (equal: bool) {
        match (self, other) {
            (Response::Pong(a), Response::Pong(b)) => *a == *b,
            (
                Response::Frame { data: a, width: aw, height: ah },
                Response::Frame { data: b, width: bw, height: bh },
            ) => *aw == *bw && *ah == *bh && same_pixels(a, b),
            _ => false,
        }
    }
}

impl PartialEqSpecImpl for Response {
    open spec fn obeys_eq_spec() -> bool {
        true
    }

    open spec fn eq_spec(&self, other: &Response) -> bool {
        self@ == other@
    }
}

impl View for Request {
    type V = Request;

    open spec fn view(&self) -> Request {
        *self
    }
}

impl View for Response {
    type V = ResponseView;

    open spec fn view(&self) -> ResponseView {
        match *self {
            Response::Pong(nonce) => ResponseView::Pong(nonce),
            Response::Frame { data, width, height } => ResponseView::Frame {
                data: data@,
                width,
                height,
            },
        }
    }
}

/// A message type of the protocol: it has a payload, and payloads decode.
pub trait Packet: View + Sized {
    /// The payload that carries the message.
    spec fn payload(message: Self::V) -> Seq<u8>;

    /// What decoding a message from the front of `bytes` gives: the message
    /// and the number of bytes it took, or the fault.
    spec fn parse(bytes: Seq<u8>) -> Result<(Self::V, nat), DecodeFault>;

    /// Decoding is the inverse of encoding: a payload, whatever follows it,
    /// decodes to the message it was made from and takes exactly its bytes.
    proof fn lemma_decode_encode(message: Self, rest: Seq<u8>)
        ensures
            Self::parse(Self::payload(message@) + rest) == Ok::<(Self::V, nat), DecodeFault>(
                (message@, Self::payload(message@).len()),
            ),
    ;

    /// The payload of the message.
    fn encode(&self) -> (r: Result<Vec<u8>, EncodeFault>)
        ensures
            match r {
                Ok(bytes) => bytes@ == Self::payload(self@),
                Err(_) => false,
            },
    ;

    /// The message at the front of `bytes`, or why there is none.
    fn decode(bytes: &[u8]) -> (r: Result<Self, DecodeFault>)
        ensures
            match r {
                Ok(message) => Self::parse(bytes@) matches Ok((m, _)) && m == message@,
                Err(fault) => Self::parse(bytes@) == Err::<(Self::V, nat), DecodeFault>(fault),
            },
    ;
}

impl Packet for Request {
    open spec fn payload(message: Request) -> Seq<u8> {
        request_payload(message)
    }

    open spec fn parse(bytes: Seq<u8>) -> Result<(Request, nat), DecodeFault> {
        parse_request(bytes)
    }

    proof fn lemma_decode_encode(message: Request, rest: Seq<u8>) {
        let (tag, value): (u32, u64) = match message {
            Request::Ping(nonce) => (0u32, nonce),
            Request::VideoStream(offset) => (1u32, offset),
        };
        let bytes = request_payload(message) + rest;
        let tail = varint(value as nat) + rest;
        assert(bytes =~= varint(tag as nat) + tail);
        lemma_parse_u32_of_varint(tag, tail);
        assert(bytes.skip(varint(tag as nat).len() as int) =~= tail);
        lemma_parse_u64_of_varint(value, rest);
    }

    fn encode(&self) -> (r: Result<Vec<u8>, EncodeFault>) {
        let (tag, value): (u32, u64) = match *self {
            Request::Ping(nonce) => (0u32, nonce),
            Request::VideoStream(offset) => (1u32, offset),
        };
        let mut out: Vec<u8> = encode_u32(tag)?;
        let mut field: Vec<u8> = encode_u64(value)?;
        out.append(&mut field);
        Ok(out)
    }

    fn decode(bytes: &[u8]) -> (r: Result<Request, DecodeFault>) {
        let (tag, n) = decode_u32(bytes)?;
        proof {
            lemma_parse_varint_bounds(bytes@, 252);
            lemma_radix_values();
        }
        if tag > 1 {
            return Err(DecodeFault::UnexpectedVariant { found: tag });
        }
        let rest = vstd::slice::slice_subrange(bytes, n, bytes.len());
        assert(rest@ =~= bytes@.skip(n as int));
        let (value, _) = decode_u64(rest)?;
        if tag == 0 {
            Ok(Request::Ping(value))
        } else {
            Ok(Request::VideoStream(value))
        }
    }
}

/// Decodes `count` pixels from the front of `bytes`.
fn decode_pixels(bytes: &[u8], count: u64) -> (r: Result<(Vec<u32>, usize), DecodeFault>)
    ensures
        match r {
            Ok((pixels, used)) => parse_pixels(bytes@, count as nat) == Ok::<
                (Seq<u32>, nat),
                DecodeFault,
            >((pixels@, used as nat)),
            Err(fault) => parse_pixels(bytes@, count as nat) == Err::<
                (Seq<u32>, nat),
                DecodeFault,
            >(fault),
        },
{
    let mut pixels: Vec<u32> = Vec::new();
    let mut pos: usize = 0;
    let mut i: u64 = 0;
    assert(bytes@.skip(0) =~= bytes@);
    while i < count
        invariant
            i <= count,
            pos <= bytes.len(),
            pixels@.len() == i,
            parse_pixels(bytes@, count as nat) == continued(
                pixels@,
                pos as nat,
                parse_pixels(bytes@.skip(pos as int), (count - i) as nat),
            ),
        decreases count - i,
    {
        let rest = vstd::slice::slice_subrange(bytes, pos, bytes.len());
        let ghost before = parse_pixels(rest@, (count - i) as nat);
        proof {
            assert(rest@ =~= bytes@.skip(pos as int));
            lemma_parse_varint_bounds(rest@, 252);
            lemma_radix_values();
            assert(before == match parse_u32(rest@) {
                Err(fault) => Err::<(Seq<u32>, nat), DecodeFault>(fault),
                Ok((pixel, n)) => continued(
                    seq![pixel as u32],
                    n,
                    parse_pixels(rest@.skip(n as int), (count - i - 1) as nat),
                ),
            });
        }
        match decode_u32(rest) {
            Err(fault) => {
                return Err(fault);
            },
            Ok((pixel, k)) => {
                proof {
                    let after = parse_pixels(rest@.skip(k as int), (count - i - 1) as nat);
                    lemma_continued_step(pixels@, pos as nat, pixel, k as nat, after);
                    assert(rest@.skip(k as int) =~= bytes@.skip(pos + k));
                }
                pixels.push(pixel);
                pos = pos + k;
                i = i + 1;
            },
        }
    }
    assert(pixels@ + Seq::<u32>::empty() =~= pixels@);
    Ok((pixels, pos))
}

/// Decodes the fields of a frame from the front of `bytes`.
fn decode_frame(bytes: &[u8]) -> (r: Result<Response, DecodeFault>)
    ensures
        match r {
            Ok(frame) => parse_frame(bytes@) matches Ok((m, _)) && m == frame@,
            Err(fault) => parse_frame(bytes@) == Err::<(ResponseView, nat), DecodeFault>(fault),
        },
{
    let (count, a) = decode_u64(bytes)?;
    proof {
        lemma_parse_varint_bounds(bytes@, 253);
    }
    let rest = vstd::slice::slice_subrange(bytes, a, bytes.len());
    assert(rest@ =~= bytes@.skip(a as int));
    let (data, b) = decode_pixels(rest, count)?;
    proof {
        lemma_parse_pixels_bounds(rest@, count as nat);
    }
    let rest = vstd::slice::slice_subrange(bytes, a + b, bytes.len());
    assert(rest@ =~= bytes@.skip(a + b));
    let (width, c) = decode_u32(rest)?;
    proof {
        lemma_parse_varint_bounds(rest@, 252);
    }
    let rest = vstd::slice::slice_subrange(bytes, a + b + c, bytes.len());
    assert(rest@ =~= bytes@.skip(a + b + c));
    let (height, _) = decode_u32(rest)?;
    Ok(Response::Frame { data, width, height })
}

impl Packet for Response {
    open spec fn payload(message: ResponseView) -> Seq<u8> {
        response_payload(message)
    }

    open spec fn parse(bytes: Seq<u8>) -> Result<(ResponseView, nat), DecodeFault> {
        parse_response(bytes)
    }

    proof fn lemma_decode_encode(message: Response, rest: Seq<u8>) {
        if let Response::Frame { data, width, height } = message {
            assert(data@.len() == data.len());
        }
        lemma_parse_response_of_payload(message@, rest);
    }

    fn encode(&self) -> (r: Result<Vec<u8>, EncodeFault>) {
        match self {
            Response::Pong(nonce) => {
                let mut out: Vec<u8> = encode_u32(0)?;
                let mut field: Vec<u8> = encode_u64(*nonce)?;
                out.append(&mut field);
                Ok(out)
            },
            Response::Frame { data, width, height } => {
                let mut out: Vec<u8> = encode_u32(1)?;
                let mut count: Vec<u8> = encode_u64(data.len() as u64)?;
                out.append(&mut count);
                let ghost head = out@;
                let mut i: usize = 0;
                while i < data.len()
                    invariant
                        i <= data.len(),
                        out@ == head + pixels_payload(data@.take(i as int)),
                    decreases data.len() - i,
                {
                    let mut pixel: Vec<u8> = encode_u32(data[i])?;
                    proof {
                        lemma_pixels_payload_push(data@.take(i as int), data@[i as int]);
                        assert(data@.take(i + 1) =~= data@.take(i as int).push(data@[i as int]));
                    }
                    out.append(&mut pixel);
                    i += 1;
                }
                assert(data@.take(i as int) =~= data@);
                let mut field: Vec<u8> = encode_u32(*width)?;
                out.append(&mut field);
                let mut field: Vec<u8> = encode_u32(*height)?;
                out.append(&mut field);
                Ok(out)
            },
        }
    }

    fn decode(bytes: &[u8]) -> (r: Result<Response, DecodeFault>) {
        let (tag, n) = decode_u32(bytes)?;
        proof {
            lemma_parse_varint_bounds(bytes@, 252);
            lemma_radix_values();
        }
        let body = vstd::slice::slice_subrange(bytes, n, bytes.len());
        assert(body@ =~= bytes@.skip(n as int));
        if tag == 0 {
            let (nonce, _) = decode_u64(body)?;
            Ok(Response::Pong(nonce))
        } else if tag == 1 {
            decode_frame(body)
        } else {
            Err(DecodeFault::UnexpectedVariant { found: tag })
        }
    }
}

/// Round trip: whatever the message and its fields, decoding its payload
/// gives the message back.
pub proof fn lemma_round_trip<P: Packet>(message: P)
    ensures
        P::parse(P::payload(message@)) == Ok::<(P::V, nat), DecodeFault>(
            (message@, P::payload(message@).len()),
        ),
{
    P::lemma_decode_encode(message, Seq::<u8>::empty());
    assert(P::payload(message@) + Seq::<u8>::empty() =~= P::payload(message@));
}

/// What a failed read means to a receiver. A stream that finishes before the
/// first byte of a message has ended cleanly; any other failure is kept.
pub open spec fn receive_fault(at_boundary: bool, fault: ReadExactFault) -> CoreError {
    if at_boundary && fault == ReadExactFault::FinishedEarly(0) {
        CoreError::ReadExactError(ReadExactFault::EndOfStream)
    } else {
        CoreError::ReadExactError(fault)
    }
}

/// What receiving one message from a finished stream that holds `unread`
/// gives: the message in the first frame, or why there is none. A frame cut
/// short is a read fault, whatever its bytes would decode to.
pub open spec fn received<P: Packet>(unread: Seq<u8>) -> Result<P::V, CoreError> {
    if unread.len() < 4 {
        Err(receive_fault(true, ReadExactFault::FinishedEarly(unread.len() as usize)))
    } else if unread.len() - 4 < be32_value(unread.take(4)) {
        Err(receive_fault(false, ReadExactFault::FinishedEarly((unread.len() - 4) as usize)))
    } else {
        match P::parse(unread.subrange(4, 4 + be32_value(unread.take(4)) as int)) {
            Ok((message, _)) => Ok(message),
            Err(fault) => Err(CoreError::DecodeError(fault)),
        }
    }
}

/// How many bytes receiving one message takes from a finished stream that
/// holds `unread`: the first frame, or everything when the frame is cut short.
pub open spec fn consumed(unread: Seq<u8>) -> nat {
    if unread.len() < 4 || unread.len() - 4 < be32_value(unread.take(4)) {
        unread.len()
    } else {
        4 + be32_value(unread.take(4))
    }
}

/// The error that a receiver reports for a failed read. `at_boundary` says
/// that the read was for the first bytes of a message.
pub fn read_failed(at_boundary: bool, fault: ReadExactFault) -> (e: CoreError)
    ensures
        e == receive_fault(at_boundary, fault),
{
    match fault {
        ReadExactFault::FinishedEarly(n) => {
            if at_boundary && n == 0 {
                CoreError::ReadExactError(ReadExactFault::EndOfStream)
            } else {
                CoreError::ReadExactError(fault)
            }
        },
        _ => CoreError::ReadExactError(fault),
    }
}

/// The frame that carries `packet`: the length of its payload, then the
/// payload. A payload that a 32-bit length cannot state is refused.
pub fn frame_packet<P: Packet>(packet: &P) -> (r: Result<Vec<u8>, CoreError>)
    ensures
        match r {
            Ok(bytes) => P::payload(packet@).len() <= u32::MAX && bytes@ == frame(
                P::payload(packet@),
            ),
            Err(e) => P::payload(packet@).len() > u32::MAX && e == CoreError::EncodeError(
                EncodeFault::PayloadTooLarge,
            ),
        },
{
    let mut payload = match packet.encode() {
        Ok(payload) => payload,
        Err(fault) => {
            return Err(CoreError::EncodeError(fault));
        },
    };
    let prefix = match length_prefix(payload.len()) {
        Ok(prefix) => prefix,
        Err(fault) => {
            return Err(CoreError::EncodeError(fault));
        },
    };
    let mut bytes: Vec<u8> = Vec::new();
    bytes.push(prefix[0]);
    bytes.push(prefix[1]);
    bytes.push(prefix[2]);
    bytes.push(prefix[3]);
    assert(bytes@ =~= prefix@);
    bytes.append(&mut payload);
    Ok(bytes)
}

/// Sends `packet` on `stream`: the length of its payload, then the payload.
/// Either the whole frame is written or, when the packet is refused, nothing.
pub fn send_packet<P: Packet>(stream: &mut ByteStream, packet: P) -> (r: Result<(), CoreError>)
    ensures
        match r {
            Ok(_) => P::payload(packet@).len() <= u32::MAX && final(stream)@ == old(stream)@
                + frame(P::payload(packet@)),
            Err(e) => P::payload(packet@).len() > u32::MAX && e == CoreError::EncodeError(
                EncodeFault::PayloadTooLarge,
            ) && final(stream)@ == old(stream)@,
        },
{
    let bytes = frame_packet(&packet)?;
    stream.write_all(bytes.as_slice());
    Ok(())
}

/// Receives one message from `stream`: reads the four bytes of the length,
/// then exactly that many bytes, then decodes them.
pub fn recv_packet<P: Packet>(stream: &mut ByteStream) -> (r: Result<P, CoreError>)
    ensures
        match r {
            Ok(message) => received::<P>(old(stream)@) == Ok::<P::V, CoreError>(message@),
            Err(e) => received::<P>(old(stream)@) == Err::<P::V, CoreError>(e),
        },
        final(stream)@ == old(stream)@.skip(consumed(old(stream)@) as int),
{
    let header = match stream.read_exact(4) {
        Ok(header) => header,
        Err(fault) => {
            assert(old(stream)@.skip(old(stream)@.len() as int) =~= Seq::<u8>::empty());
            return Err(read_failed(true, fault));
        },
    };
    let prefix: [u8; 4] = [header[0], header[1], header[2], header[3]];
    assert(prefix@ =~= old(stream)@.take(4));
    let len = payload_length(&prefix) as usize;
    let payload = match stream.read_exact(len) {
        Ok(payload) => payload,
        Err(fault) => {
            assert(old(stream)@.skip(old(stream)@.len() as int) =~= Seq::<u8>::empty());
            return Err(read_failed(false, fault));
        },
    };
    assert(payload@ =~= old(stream)@.subrange(4, 4 + len));
    assert(stream@ =~= old(stream)@.skip(4 + len));
    match P::decode(payload.as_slice()) {
        Ok(message) => Ok(message),
        Err(fault) => Err(CoreError::DecodeError(fault)),
    }
}

/// A receiver that is fed the frame of a message, whatever follows it, gets
/// that message and takes exactly the frame.
pub proof fn lemma_receive_frame<P: Packet>(message: P, after: Seq<u8>)
    requires
        P::payload(message@).len() <= u32::MAX,
    ensures
        received::<P>(frame(P::payload(message@)) + after) == Ok::<P::V, CoreError>(message@),
        consumed(frame(P::payload(message@)) + after) == frame(P::payload(message@)).len(),
{
    let payload = P::payload(message@);
    let unread = frame(payload) + after;
    lemma_be32_roundtrip(payload.len());
    assert(unread.take(4) =~= be32(payload.len()));
    assert(unread.subrange(4, 4 + payload.len() as int) =~= payload + Seq::<u8>::empty());
    P::lemma_decode_encode(message, Seq::<u8>::empty());
}

/// A receiver that is fed only the first `kept` bytes of a frame, fewer than
/// the frame has, reports a read fault and no message: a clean end when
/// nothing arrived, a stream finished early otherwise.
pub proof fn lemma_receive_truncated<P: Packet>(message: P, kept: nat)
    requires
        P::payload(message@).len() <= u32::MAX,
        kept < frame(P::payload(message@)).len(),
    ensures
        received::<P>(frame(P::payload(message@)).take(kept as int)) == Err::<P::V, CoreError>(
            CoreError::ReadExactError(
                if kept == 0 {
                    ReadExactFault::EndOfStream
                } else if kept < 4 {
                    ReadExactFault::FinishedEarly(kept as usize)
                } else {
                    ReadExactFault::FinishedEarly((kept - 4) as usize)
                },
            ),
        ),
{
    let payload = P::payload(message@);
    let unread = frame(payload).take(kept as int);
    lemma_be32_roundtrip(payload.len());
    if kept >= 4 {
        assert(unread.take(4) =~= be32(payload.len()));
    }
}

} // verus!
