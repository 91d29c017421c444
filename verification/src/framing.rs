//! Length-prefixed framing: a four-byte length header followed by exactly that
//! many body bytes, with nothing after the body.

use vstd::prelude::*;
use vstd::string::StringSliceAdditionalSpecFns;

verus! {

/// The order in which the four header bytes carry the length.
#[derive(Clone, Copy, Debug, PartialEq, Eq, Structural)]
pub enum ByteOrder {
    /// Least significant byte first.
    Little,
    /// Most significant byte first.
    Big,
}

/// Why a byte sequence is not one frame.
#[derive(Clone, Copy, Debug, PartialEq, Eq, Structural)]
pub enum FramingError {
    /// Fewer than four bytes where a header was expected.
    TruncatedHeader,
    /// Fewer body bytes than the header announces.
    TruncatedBody,
    /// A body longer than a four-byte header can announce.
    BodyTooLong,
}

/// Size of the length header in bytes.
pub const HEADER_LEN: usize = 4;

/// The four header bytes that announce `len` in the given order.
pub open spec fn header_bytes(len: u32, order: ByteOrder) -> Seq<u8> {
    let b0 = (len % 256) as u8;
    let b1 = ((len / 256) % 256) as u8;
    let b2 = ((len / 256 / 256) % 256) as u8;
    let b3 = ((len / 256 / 256 / 256) % 256) as u8;
    match order {
        ByteOrder::Little => seq![b0, b1, b2, b3],
        ByteOrder::Big => seq![b3, b2, b1, b0],
    }
}

/// The length that the first four bytes of `bytes` announce in the given order.
pub open spec fn header_value(bytes: Seq<u8>, order: ByteOrder) -> int
    recommends
        bytes.len() >= 4,
{
    match order {
        ByteOrder::Little => bytes[0] + bytes[1] * 256 + bytes[2] * 65536 + bytes[3] * 16777216,
        ByteOrder::Big => bytes[3] + bytes[2] * 256 + bytes[1] * 65536 + bytes[0] * 16777216,
    }
}

/// One frame: the header for the body's length, then the body.
pub open spec fn frame(body: Seq<u8>, order: ByteOrder) -> Seq<u8>
    recommends
        body.len() <= u32::MAX,
{
    header_bytes(body.len() as u32, order) + body
}

/// Whether `buf` starts with a complete frame.
pub open spec fn has_frame(buf: Seq<u8>, order: ByteOrder) -> bool {
    buf.len() >= 4 && buf.len() - 4 >= header_value(buf, order)
}

/// The body of the frame that `buf` starts with.
pub open spec fn first_body(buf: Seq<u8>, order: ByteOrder) -> Seq<u8>
    recommends
        has_frame(buf, order),
{
    buf.subrange(4, 4 + header_value(buf, order))
}

/// What follows the frame that `buf` starts with.
pub open spec fn after_first(buf: Seq<u8>, order: ByteOrder) -> Seq<u8>
    recommends
        has_frame(buf, order),
{
    buf.subrange(4 + header_value(buf, order), buf.len() as int)
}

/// What reading one frame from `input` yields: its body, or the reason why
/// `input` does not start with a frame. Bytes after the frame are ignored.
pub open spec fn read_result(input: Seq<u8>, order: ByteOrder) -> Result<Seq<u8>, FramingError> {
    if input.len() < 4 {
        Err(FramingError::TruncatedHeader)
    } else if input.len() - 4 < header_value(input, order) {
        Err(FramingError::TruncatedBody)
    } else {
        Ok(first_body(input, order))
    }
}

/// What framing `body` yields: the frame, or `BodyTooLong`.
pub open spec fn write_result(body: Seq<u8>, order: ByteOrder) -> Result<Seq<u8>, FramingError> {
    if body.len() > u32::MAX {
        Err(FramingError::BodyTooLong)
    } else {
        Ok(frame(body, order))
    }
}

/// The view of a byte result: the bytes of `Ok`, the error of `Err`.
pub open spec fn bytes_view(r: Result<Vec<u8>, FramingError>) -> Result<Seq<u8>, FramingError> {
    match r {
        Ok(v) => Ok(v@),
        Err(e) => Err(e),
    }
}

/// A header decodes to the length it was made from, in either order.
pub proof fn lemma_header_round_trip(len: u32, order: ByteOrder)
    ensures
        header_bytes(len, order).len() == 4,
        header_value(header_bytes(len, order), order) == len,
{
    let q1 = len / 256;
    let q2 = q1 / 256;
    let q3 = q2 / 256;
    assert(len == (len % 256) + 256 * q1);
    assert(q1 == (q1 % 256) + 256 * q2);
    assert(q2 == (q2 % 256) + 256 * q3);
    assert(q3 < 256);
}

/// The header made from the length that four bytes announce is those four
/// bytes again.
pub proof fn lemma_value_round_trip(bytes: Seq<u8>, order: ByteOrder)
    requires
        bytes.len() == 4,
    ensures
        0 <= header_value(bytes, order) <= u32::MAX,
        header_bytes(header_value(bytes, order) as u32, order) == bytes,
{
    let v = header_value(bytes, order);
    let (a, b, c, d) = match order {
        ByteOrder::Little => (bytes[0] as int, bytes[1] as int, bytes[2] as int, bytes[3] as int),
        ByteOrder::Big => (bytes[3] as int, bytes[2] as int, bytes[1] as int, bytes[0] as int),
    };
    let q2 = c + 256 * d;
    let q1 = b + 256 * q2;
    assert(v == a + 256 * q1);
    assert(v % 256 == a && v / 256 == q1);
    assert(q1 % 256 == b && q1 / 256 == q2);
    assert(q2 % 256 == c && q2 / 256 == d);
    assert(d % 256 == d);
    assert(header_bytes(v as u32, order) =~= bytes);
}

/// Reading a frame gives back the body it was written from, whatever bytes
/// follow the frame.
pub proof fn lemma_read_write(body: Seq<u8>, rest: Seq<u8>, order: ByteOrder)
    requires
        body.len() <= u32::MAX,
    ensures
        has_frame(frame(body, order) + rest, order),
        read_result(frame(body, order) + rest, order) == Ok::<Seq<u8>, FramingError>(body),
        after_first(frame(body, order) + rest, order) == rest,
{
    let len = body.len() as u32;
    let h = header_bytes(len, order);
    let buf = frame(body, order) + rest;
    lemma_header_round_trip(len, order);
    assert(buf.len() == 4 + body.len() + rest.len());
    assert(buf[0] == h[0] && buf[1] == h[1] && buf[2] == h[2] && buf[3] == h[3]);
    assert(header_value(buf, order) == header_value(h, order));
    assert(first_body(buf, order) =~= body);
    assert(after_first(buf, order) =~= rest);
}

/// Frames leave a stream in the order in which they were written: of two
/// frames of which one follows the other, the first body comes out first and
/// the second next, whatever bytes follow them.
pub proof fn lemma_frames_in_wire_order(a: Seq<u8>, b: Seq<u8>, rest: Seq<u8>, order: ByteOrder)
    requires
        a.len() <= u32::MAX,
        b.len() <= u32::MAX,
    ensures
        first_body(frame(a, order) + frame(b, order) + rest, order) == a,
        first_body(after_first(frame(a, order) + frame(b, order) + rest, order), order) == b,
        after_first(after_first(frame(a, order) + frame(b, order) + rest, order), order) == rest,
{
    let wire = frame(a, order) + frame(b, order) + rest;
    assert(wire =~= frame(a, order) + (frame(b, order) + rest));
    lemma_read_write(a, frame(b, order) + rest, order);
    lemma_read_write(b, rest, order);
}

/// Two frames written in the same order are equal only if their bodies are.
pub proof fn lemma_frame_injective(a: Seq<u8>, b: Seq<u8>, order: ByteOrder)
    requires
        a.len() <= u32::MAX,
        b.len() <= u32::MAX,
        frame(a, order) == frame(b, order),
    ensures
        a == b,
{
    lemma_read_write(a, Seq::<u8>::empty(), order);
    lemma_read_write(b, Seq::<u8>::empty(), order);
    assert(frame(a, order) + Seq::<u8>::empty() =~= frame(a, order));
    assert(frame(b, order) + Seq::<u8>::empty() =~= frame(b, order));
}

/// Reads two bytes `[1, 0]` as a `u16` in the machine's own order with
/// `u16::from_ne_bytes`. The contract claims only that the result is one of the
/// two values those bytes can stand for: 1 where the low byte comes first, 256
/// where the high byte does.
#[verifier::external_body]
fn native_probe() -> (r: u16)
    ensures
        r == 1 || r == 256,
{
    u16::from_ne_bytes([1, 0])
}

impl ByteOrder {
    /// The byte order of the machine this runs on.
    pub fn native() -> (order: ByteOrder) {
        ByteOrder::from_probe(native_probe())
    }

    /// The byte order of a machine on which the bytes `[1, 0]`, taken as a
    /// 16-bit number in the machine's own order, are `probe`.
    pub fn from_probe(probe: u16) -> (order: ByteOrder)
        ensures
            order == order_of_probe(probe),
    {
        if probe == 1 {
            ByteOrder::Little
        } else {
            ByteOrder::Big
        }
    }
}

/// The byte order that a machine has on which the bytes `[1, 0]` are the
/// 16-bit number `probe`: the low byte comes first where that number is 1,
/// which is what those bytes announce in little-endian order; any other value
/// tells that the high byte comes first.
pub open spec fn order_of_probe(probe: u16) -> ByteOrder {
    if probe == 1 {
        ByteOrder::Little
    } else {
        ByteOrder::Big
    }
}

/// Builds the four header bytes for `len`.
pub fn encode_header(len: u32, order: ByteOrder) -> (header: [u8; 4])
    ensures
        header@ == header_bytes(len, order),
{
    let b0: u8 = (len % 256) as u8;
    let b1: u8 = ((len / 256) % 256) as u8;
    let b2: u8 = ((len / 256 / 256) % 256) as u8;
    let b3: u8 = ((len / 256 / 256 / 256) % 256) as u8;
    let header: [u8; 4] = match order {
        ByteOrder::Little => [b0, b1, b2, b3],
        ByteOrder::Big => [b3, b2, b1, b0],
    };
    assert(header@ =~= header_bytes(len, order));
    header
}

/// Reads the length that a four-byte header announces.
pub fn decode_header(header: &[u8; 4], order: ByteOrder) -> (len: u32)
    ensures
        len == header_value(header@, order),
{
    let b0: u32 = header[0] as u32;
    let b1: u32 = header[1] as u32;
    let b2: u32 = header[2] as u32;
    let b3: u32 = header[3] as u32;
    match order {
        ByteOrder::Little => b0 + b1 * 256 + b2 * 65536 + b3 * 16777216,
        ByteOrder::Big => b3 + b2 * 256 + b1 * 65536 + b0 * 16777216,
    }
}

/// Reads one frame from the start of `input` in the given byte order and
/// returns its body. Bytes after the frame are ignored.
pub fn read_frame(input: &[u8], order: ByteOrder) -> (r: Result<Vec<u8>, FramingError>)
    ensures
        bytes_view(r) == read_result(input@, order),
{
    if input.len() < HEADER_LEN {
        return Err(FramingError::TruncatedHeader);
    }
    let header: [u8; 4] = [input[0], input[1], input[2], input[3]];
    let announced: u32 = decode_header(&header, order);
    assert(announced == header_value(input@, order));
    let available: usize = input.len() - HEADER_LEN;
    if available < announced as usize {
        return Err(FramingError::TruncatedBody);
    }
    let end: usize = HEADER_LEN + announced as usize;
    let mut body: Vec<u8> = Vec::new();
    let mut i: usize = HEADER_LEN;
    while i < end
        invariant
            HEADER_LEN <= i <= end <= input.len(),
            body@ == input@.subrange(4, i as int),
        decreases end - i,
    {
        body.push(input[i]);
        i = i + 1;
        assert(body@ =~= input@.subrange(4, i as int));
    }
    assert(input@.subrange(4, 4) =~= Seq::<u8>::empty());
    Ok(body)
}

/// Writes `body` as one frame in the given byte order: the header, then the
/// body. A body that a four-byte header cannot announce is refused.
pub fn write_frame(body: &[u8], order: ByteOrder) -> (r: Result<Vec<u8>, FramingError>)
    ensures
        bytes_view(r) == write_result(body@, order),
{
    if body.len() > u32::MAX as usize {
        return Err(FramingError::BodyTooLong);
    }
    let header: [u8; 4] = encode_header(body.len() as u32, order);
    let mut out: Vec<u8> = Vec::new();
    out.push(header[0]);
    out.push(header[1]);
    out.push(header[2]);
    out.push(header[3]);
    assert(out@ =~= header_bytes(body.len() as u32, order));
    let mut i: usize = 0;
    while i < body.len()
        invariant
            i <= body.len(),
            out@ == header_bytes(body.len() as u32, order) + body@.subrange(0, i as int),
        decreases body.len() - i,
    {
        out.push(body[i]);
        i = i + 1;
        assert(out@ =~= header_bytes(body.len() as u32, order) + body@.subrange(0, i as int));
    }
    assert(body@.subrange(0, body.len() as int) =~= body@);
    Ok(out)
}

/// Reads one frame from the start of `input`, with the header in this
/// machine's byte order, and returns its body.
pub fn read(input: &[u8]) -> (r: Result<Vec<u8>, FramingError>)
    ensures
        bytes_view(r) == read_result(input@, ByteOrder::Little) || bytes_view(r) == read_result(
            input@,
            ByteOrder::Big,
        ),
        input@.len() < 4 ==> r == Err::<Vec<u8>, FramingError>(FramingError::TruncatedHeader),
{
    read_frame(input, ByteOrder::native())
}

/// Writes `message` as one frame, with the header in this machine's byte
/// order.
pub fn write(message: &str) -> (r: Result<Vec<u8>, FramingError>)
    ensures
        bytes_view(r) == write_result(message.spec_bytes(), ByteOrder::Little) || bytes_view(r)
            == write_result(message.spec_bytes(), ByteOrder::Big),
{
    write_frame(message.as_bytes(), ByteOrder::native())
}

/// Puts frames together from the pieces in which a stream delivers them. A
/// read may end in the middle of a frame; the decoder keeps what it was fed
/// until a whole frame is there.
pub struct FrameDecoder {
    order: ByteOrder,
    buffer: Vec<u8>,
}

impl FrameDecoder {
    /// The bytes that were fed and not yet taken out as frames.
    pub closed spec fn buffered(&self) -> Seq<u8> {
        self.buffer@
    }

    /// The byte order of the headers.
    pub closed spec fn byte_order(&self) -> ByteOrder {
        self.order
    }

    /// A decoder that holds nothing.
    pub fn new(order: ByteOrder) -> (decoder: FrameDecoder)
        ensures
            decoder.buffered() == Seq::<u8>::empty(),
            decoder.byte_order() == order,
    {
        FrameDecoder { order, buffer: Vec::new() }
    }

    /// Appends what a read delivered.
    pub fn feed(&mut self, bytes: &[u8])
        ensures
            final(self).buffered() == old(self).buffered() + bytes@,
            final(self).byte_order() == old(self).byte_order(),
    {
        let mut i: usize = 0;
        while i < bytes.len()
            invariant
                i <= bytes.len(),
                self.order == old(self).order,
                self.buffer@ == old(self).buffer@ + bytes@.subrange(0, i as int),
            decreases bytes.len() - i,
        {
            self.buffer.push(bytes[i]);
            i = i + 1;
            assert(self.buffer@ =~= old(self).buffer@ + bytes@.subrange(0, i as int));
        }
        assert(bytes@.subrange(0, bytes.len() as int) =~= bytes@);
    }

    /// Takes the first frame out, where a whole one is there, and returns
    /// its body; what follows the frame stays. `None`, and nothing changes,
    /// while the first frame is incomplete.
    pub fn next_frame(&mut self) -> (r: Option<Vec<u8>>)
        ensures
            final(self).byte_order() == old(self).byte_order(),
            match r {
                Some(body) => {
                    &&& has_frame(old(self).buffered(), old(self).byte_order())
                    &&& body@ == first_body(old(self).buffered(), old(self).byte_order())
                    &&& final(self).buffered() == after_first(
                        old(self).buffered(),
                        old(self).byte_order(),
                    )
                },
                None => {
                    &&& !has_frame(old(self).buffered(), old(self).byte_order())
                    &&& final(self).buffered() == old(self).buffered()
                },
            },
    {
        let body = match read_frame(self.buffer.as_slice(), self.order) {
            Ok(body) => body,
            Err(_) => {
                return None;
            },
        };
        assert(has_frame(self.buffer@, self.order));
        assert(body@.len() == header_value(self.buffer@, self.order));
        assert(4 + body@.len() <= self.buffer.len());
        let start: usize = HEADER_LEN + body.len();
        let mut rest: Vec<u8> = Vec::new();
        let mut i: usize = start;
        while i < self.buffer.len()
            invariant
                start <= i <= self.buffer.len(),
                rest@ == self.buffer@.subrange(start as int, i as int),
            decreases self.buffer.len() - i,
        {
            rest.push(self.buffer[i]);
            i = i + 1;
            assert(rest@ =~= self.buffer@.subrange(start as int, i as int));
        }
        self.buffer = rest;
        Some(body)
    }

    /// Tells whether the stream may end here: `Ok` where nothing is
    /// buffered, else the reason why what is buffered is no frame.
    pub fn finish(&self) -> (r: Result<(), FramingError>)
        ensures
            r == if self.buffered().len() == 0 {
                Ok::<(), FramingError>(())
            } else if self.buffered().len() < 4 {
                Err::<(), FramingError>(FramingError::TruncatedHeader)
            } else if !has_frame(self.buffered(), self.byte_order()) {
                Err::<(), FramingError>(FramingError::TruncatedBody)
            } else {
                Ok::<(), FramingError>(())
            },
    {
        if self.buffer.len() == 0 {
            return Ok(());
        }
        match read_frame(self.buffer.as_slice(), self.order) {
            Ok(_) => Ok(()),
            Err(e) => Err(e),
        }
    }
}

} // verus!
