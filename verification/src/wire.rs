//! Payloads: what a request or a response looks like on the wire, and what
//! decoding makes of bytes.

use vstd::prelude::*;
use crate::error::DecodeFault;
use crate::network::Request;
use crate::network::ResponseView;
use crate::varint::lemma_parse_u32_of_varint;
use crate::varint::lemma_parse_u64_of_varint;
use crate::varint::lemma_parse_varint_bounds;
use crate::varint::parse_u32;
use crate::varint::parse_u64;
use crate::varint::varint;

verus! {

/// The tag and the one field of a request, each as a variable-length integer.
pub open spec fn request_payload(request: Request) -> Seq<u8> {
    match request {
        Request::Ping(nonce) => varint(0) + varint(nonce as nat),
        Request::VideoStream(offset) => varint(1) + varint(offset as nat),
    }
}

/// What decoding a request from the front of `bytes` gives: the request and
/// the number of bytes it took, or the fault. Bytes after the request are
/// left alone.
pub open spec fn parse_request(bytes: Seq<u8>) -> Result<(Request, nat), DecodeFault> {
    match parse_u32(bytes) {
        Err(fault) => Err(fault),
        Ok((tag, n)) => if tag > 1 {
            Err(DecodeFault::UnexpectedVariant { found: tag as u32 })
        } else {
            match parse_u64(bytes.skip(n as int)) {
                Err(fault) => Err(fault),
                Ok((value, m)) => Ok(
                    (
                        if tag == 0 {
                            Request::Ping(value as u64)
                        } else {
                            Request::VideoStream(value as u64)
                        },
                        n + m,
                    ),
                ),
            }
        },
    }
}

/// The pixels of a frame, each as a variable-length integer, in order.
pub open spec fn pixels_payload(pixels: Seq<u32>) -> Seq<u8>
    decreases pixels.len(),
{
    if pixels.len() == 0 {
        Seq::empty()
    } else {
        varint(pixels[0] as nat) + pixels_payload(pixels.skip(1))
    }
}

/// The tag and the fields of a response in their order, each integer in its
/// variable-length form; the pixels follow their count.
pub open spec fn response_payload(response: ResponseView) -> Seq<u8> {
    match response {
        ResponseView::Pong(nonce) => varint(0) + varint(nonce as nat),
        ResponseView::Frame { data, width, height } => varint(1) + varint(data.len())
            + pixels_payload(data) + varint(width as nat) + varint(height as nat),
    }
}

/// A partial result of reading pixels, continued by the result for what is
/// left: `done` and `used` put in front of a success, a fault kept.
pub open spec fn continued(
    done: Seq<u32>,
    used: nat,
    rest: Result<(Seq<u32>, nat), DecodeFault>,
) -> Result<(Seq<u32>, nat), DecodeFault> {
    match rest {
        Ok((pixels, more)) => Ok((done + pixels, used + more)),
        Err(fault) => Err(fault),
    }
}

/// What decoding `count` pixels from the front of `bytes` gives: the pixels
/// and the number of bytes they took, or the first fault.
pub open spec fn parse_pixels(bytes: Seq<u8>, count: nat) -> Result<(Seq<u32>, nat), DecodeFault>
    decreases count,
{
    if count == 0 {
        Ok((Seq::empty(), 0))
    } else {
        match parse_u32(bytes) {
            Err(fault) => Err(fault),
            Ok((pixel, n)) => continued(
                seq![pixel as u32],
                n,
                parse_pixels(bytes.skip(n as int), (count - 1) as nat),
            ),
        }
    }
}

/// What decoding the fields of a frame from the front of `bytes` gives.
pub open spec fn parse_frame(bytes: Seq<u8>) -> Result<(ResponseView, nat), DecodeFault> {
    match parse_u64(bytes) {
        Err(fault) => Err(fault),
        Ok((count, a)) => match parse_pixels(bytes.skip(a as int), count) {
            Err(fault) => Err(fault),
            Ok((data, b)) => match parse_u32(bytes.skip((a + b) as int)) {
                Err(fault) => Err(fault),
                Ok((width, c)) => match parse_u32(bytes.skip((a + b + c) as int)) {
                    Err(fault) => Err(fault),
                    Ok((height, d)) => Ok(
                        (
                            ResponseView::Frame {
                                data,
                                width: width as u32,
                                height: height as u32,
                            },
                            a + b + c + d,
                        ),
                    ),
                },
            },
        },
    }
}

/// What decoding a response from the front of `bytes` gives: the response
/// and the number of bytes it took, or the fault. Bytes after the response
/// are left alone.
pub open spec fn parse_response(bytes: Seq<u8>) -> Result<(ResponseView, nat), DecodeFault> {
    match parse_u32(bytes) {
        Err(fault) => Err(fault),
        Ok((tag, n)) => if tag == 0 {
            match parse_u64(bytes.skip(n as int)) {
                Err(fault) => Err(fault),
                Ok((nonce, m)) => Ok((ResponseView::Pong(nonce as u64), n + m)),
            }
        } else if tag == 1 {
            match parse_frame(bytes.skip(n as int)) {
                Err(fault) => Err(fault),
                Ok((frame, m)) => Ok((frame, n + m)),
            }
        } else {
            Err(DecodeFault::UnexpectedVariant { found: tag as u32 })
        },
    }
}

/// Appending a pixel appends its wire form.
pub proof fn lemma_pixels_payload_push(pixels: Seq<u32>, pixel: u32)
    ensures
        pixels_payload(pixels.push(pixel)) == pixels_payload(pixels) + varint(pixel as nat),
    decreases pixels.len(),
{
    if pixels.len() == 0 {
        let one = pixels.push(pixel);
        assert(one.skip(1) =~= Seq::<u32>::empty());
        assert(pixels_payload(one) == varint(one[0] as nat) + pixels_payload(one.skip(1)));
        assert(pixels_payload(one) =~= pixels_payload(pixels) + varint(pixel as nat));
    } else {
        lemma_pixels_payload_push(pixels.skip(1), pixel);
        assert(pixels.push(pixel).skip(1) =~= pixels.skip(1).push(pixel));
        assert(pixels_payload(pixels.push(pixel)) =~= pixels_payload(pixels) + varint(
            pixel as nat,
        ));
    }
}

/// The wire form of pixels, whatever follows it, decodes to the pixels and
/// takes exactly its bytes.
pub proof fn lemma_parse_pixels_of_payload(pixels: Seq<u32>, rest: Seq<u8>)
    ensures
        parse_pixels(pixels_payload(pixels) + rest, pixels.len()) == Ok::<
            (Seq<u32>, nat),
            DecodeFault,
        >((pixels, pixels_payload(pixels).len())),
    decreases pixels.len(),
{
    if pixels.len() == 0 {
        assert(pixels =~= Seq::<u32>::empty());
    } else {
        let head = varint(pixels[0] as nat);
        let tail = pixels_payload(pixels.skip(1)) + rest;
        let bytes = pixels_payload(pixels) + rest;
        assert(bytes =~= head + tail);
        lemma_parse_u32_of_varint(pixels[0], tail);
        assert(bytes.skip(head.len() as int) =~= tail);
        lemma_parse_pixels_of_payload(pixels.skip(1), rest);
        assert(seq![pixels[0]] + pixels.skip(1) =~= pixels);
    }
}

/// A successful read of pixels gives as many as were asked for and takes no
/// more bytes than there are.
pub proof fn lemma_parse_pixels_bounds(bytes: Seq<u8>, count: nat)
    ensures
        parse_pixels(bytes, count) matches Ok((pixels, used)) ==> pixels.len() == count && used
            <= bytes.len(),
    decreases count,
{
    if count > 0 {
        lemma_parse_varint_bounds(bytes, 252);
        if let Ok((pixel, n)) = parse_u32(bytes) {
            lemma_parse_pixels_bounds(bytes.skip(n as int), (count - 1) as nat);
        }
    }
}

/// One more pixel read: the partial result grows by it.
pub proof fn lemma_continued_step(
    done: Seq<u32>,
    used: nat,
    pixel: u32,
    n: nat,
    rest: Result<(Seq<u32>, nat), DecodeFault>,
)
    ensures
        continued(done, used, continued(seq![pixel], n, rest)) == continued(
            done.push(pixel),
            used + n,
            rest,
        ),
{
    if let Ok((pixels, more)) = rest {
        assert(done + (seq![pixel] + pixels) =~= done.push(pixel) + pixels);
    }
}

/// The four parts of a frame's fields, each of which reads back alone, read
/// back together.
proof fn lemma_parse_frame_parts(
    count: Seq<u8>,
    pixels: Seq<u8>,
    w: Seq<u8>,
    h: Seq<u8>,
    rest: Seq<u8>,
    data: Seq<u32>,
    width: u32,
    height: u32,
)
    requires
        parse_u64(count + (pixels + (w + (h + rest)))) == Ok::<(nat, nat), DecodeFault>(
            (data.len(), count.len()),
        ),
        parse_pixels(pixels + (w + (h + rest)), data.len()) == Ok::<(Seq<u32>, nat), DecodeFault>(
            (data, pixels.len()),
        ),
        parse_u32(w + (h + rest)) == Ok::<(nat, nat), DecodeFault>((width as nat, w.len())),
        parse_u32(h + rest) == Ok::<(nat, nat), DecodeFault>((height as nat, h.len())),
    ensures
        parse_frame(count + pixels + w + h + rest) == Ok::<(ResponseView, nat), DecodeFault>(
            (ResponseView::Frame { data, width, height }, (count + pixels + w + h).len()),
        ),
{
    let all = count + pixels + w + h + rest;
    assert(all =~= count + (pixels + (w + (h + rest))));
    assert(all.skip(count.len() as int) =~= pixels + (w + (h + rest)));
    assert(all.skip((count.len() + pixels.len()) as int) =~= w + (h + rest));
    assert(all.skip((count.len() + pixels.len() + w.len()) as int) =~= h + rest);
}

/// A tag that reads back alone and a body that reads back alone read back
/// together.
proof fn lemma_parse_response_parts(
    tag: Seq<u8>,
    body: Seq<u8>,
    rest: Seq<u8>,
    message: ResponseView,
)
    requires
        message is Pong ==> parse_u32(tag + (body + rest)) == Ok::<(nat, nat), DecodeFault>(
            (0, tag.len()),
        ) && parse_u64(body + rest) == Ok::<(nat, nat), DecodeFault>(
            (message->0 as nat, body.len()),
        ),
        message is Frame ==> parse_u32(tag + (body + rest)) == Ok::<(nat, nat), DecodeFault>(
            (1, tag.len()),
        ) && parse_frame(body + rest) == Ok::<(ResponseView, nat), DecodeFault>(
            (message, body.len()),
        ),
    ensures
        parse_response(tag + body + rest) == Ok::<(ResponseView, nat), DecodeFault>(
            (message, (tag + body).len()),
        ),
{
    let all = tag + body + rest;
    assert(all =~= tag + (body + rest));
    assert(all.skip(tag.len() as int) =~= body + rest);
}

/// The payload of a frame after its tag, whatever follows it, decodes to the
/// frame and takes exactly its bytes.
pub proof fn lemma_parse_frame_of_payload(data: Seq<u32>, width: u32, height: u32, rest: Seq<u8>)
    requires
        data.len() <= u64::MAX,
    ensures
        parse_frame(
            varint(data.len()) + pixels_payload(data) + varint(width as nat) + varint(
                height as nat,
            ) + rest,
        ) == Ok::<(ResponseView, nat), DecodeFault>(
            (
                ResponseView::Frame { data, width, height },
                (varint(data.len()) + pixels_payload(data) + varint(width as nat) + varint(
                    height as nat,
                )).len(),
            ),
        ),
{
    let count = varint(data.len());
    let pixels = pixels_payload(data);
    let w = varint(width as nat);
    let h = varint(height as nat);
    lemma_parse_u64_of_varint(data.len() as u64, pixels + (w + (h + rest)));
    lemma_parse_pixels_of_payload(data, w + (h + rest));
    lemma_parse_u32_of_varint(width, h + rest);
    lemma_parse_u32_of_varint(height, rest);
    lemma_parse_frame_parts(count, pixels, w, h, rest, data, width, height);
}

/// The payload of a response, whatever follows it, decodes to the response
/// and takes exactly its bytes.
pub proof fn lemma_parse_response_of_payload(message: ResponseView, rest: Seq<u8>)
    requires
        message matches ResponseView::Frame { data, .. } ==> data.len() <= u64::MAX,
    ensures
        parse_response(response_payload(message) + rest) == Ok::<(ResponseView, nat), DecodeFault>(
            (message, response_payload(message).len()),
        ),
{
    match message {
        ResponseView::Pong(nonce) => {
            let tag = varint(0);
            let body = varint(nonce as nat);
            lemma_parse_u32_of_varint(0, body + rest);
            lemma_parse_u64_of_varint(nonce, rest);
            lemma_parse_response_parts(tag, body, rest, message);
        },
        ResponseView::Frame { data, width, height } => {
            let tag = varint(1);
            let body = varint(data.len()) + pixels_payload(data) + varint(width as nat) + varint(
                height as nat,
            );
            lemma_parse_u32_of_varint(1, body + rest);
            lemma_parse_frame_of_payload(data, width, height, rest);
            lemma_parse_response_parts(tag, body, rest, message);
            lemma_frame_payload_split(data, width, height);
        },
    }
}

/// The payload of a frame is its tag followed by its fields.
proof fn lemma_frame_payload_split(data: Seq<u32>, width: u32, height: u32)
    ensures
        response_payload(ResponseView::Frame { data, width, height }) == varint(1) + (varint(
            data.len(),
        ) + pixels_payload(data) + varint(width as nat) + varint(height as nat)),
{
    let a = varint(1);
    let b = varint(data.len());
    let c = pixels_payload(data);
    let d = varint(width as nat);
    let e = varint(height as nat);
    assert(a + b + c + d + e =~= a + (b + c + d + e));
}

} // verus!
