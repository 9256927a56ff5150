//! Length-prefixed message framing over byte streams.
//!
//! A frame is the LEB128 varint of the payload length followed by the payload.

use vstd::prelude::*;

verus! {

/// Default max message size (16 MiB).
pub const MAX_MESSAGE_SIZE: u64 = 16777216;

/// Error code for streams if the max message size was exceeded.
pub const ERROR_CODE_MAX_MESSAGE_SIZE_EXCEEDED: u32 = 1;

/// Error code for streams if postcard serialization failed.
pub const ERROR_CODE_INVALID_POSTCARD: u32 = 2;

/// The LEB128 encoding of `v`: seven value bits per byte, least significant
/// group first, the high bit set on every byte but the last.
pub open spec fn varint_bytes(v: u64) -> Seq<u8>
    decreases v,
{
    if v < 128 {
        seq![v as u8]
    } else {
        proof {
            lemma_shr7_decreases(v);
        }
        seq![#[verifier::truncate] (((v & 0x7f) | 0x80) as u8)] + varint_bytes(v >> 7u64)
    }
}

pub proof fn lemma_shr7_decreases(v: u64)
    requires
        v >= 128,
    ensures
        (v >> 7u64) < v,
{
    assert(v >= 128 ==> (v >> 7u64) < v) by (bit_vector);
}

/// Byte-level facts about one step of the encoding.
proof fn lemma_varint_byte(v: u64)
    ensures
        v < 128 ==> (v as u8) & 0x80u8 == 0u8 && (((v as u8) & 0x7fu8) as u64) == v,
        v >= 128 ==> (((v & 0x7f) | 0x80) as u8) & 0x80u8 != 0u8
            && (((((v & 0x7f) | 0x80) as u8) & 0x7fu8) as u64) == v & 0x7f,
        v < 128 <==> (v >> 7u64) == 0,
        v < 128 ==> (v & 0x7f) as u8 == v as u8,
        ((v & 0x7f) as u8) | 0x80u8 == ((v & 0x7f) | 0x80) as u8,
{
    assert(v < 128 ==> (v as u8) & 0x80u8 == 0u8 && (((v as u8) & 0x7fu8) as u64) == v)
        by (bit_vector);
    assert(v >= 128 ==> (((v & 0x7f) | 0x80) as u8) & 0x80u8 != 0u8
        && (((((v & 0x7f) | 0x80) as u8) & 0x7fu8) as u64) == v & 0x7f) by (bit_vector);
    assert(v < 128 <==> (v >> 7u64) == 0) by (bit_vector);
    assert(v < 128 ==> (v & 0x7f) as u8 == v as u8) by (bit_vector);
    assert(((v & 0x7f) as u8) | 0x80u8 == ((v & 0x7f) | 0x80) as u8) by (bit_vector);
}

/// Whether `v` still fits once `k` groups of seven bits have been consumed,
/// that is whether `v << (7 * k)` loses no bit.
pub open spec fn varint_fits(v: u64, k: u64) -> bool {
    k <= 9 && (k == 0 || v >> ((64 - 7 * k) as u64) == 0)
}

proof fn lemma_varint_fits_step(v: u64, k: u64)
    requires
        varint_fits(v, k),
        v >= 128,
    ensures
        k <= 8,
        varint_fits(v >> 7u64, (k + 1) as u64),
{
    assert(k <= 9 && (k == 0 || v >> ((64 - 7 * k) as u64) == 0) && v >= 128 ==> k <= 8
        && ((v >> 7u64) >> ((64 - 7 * (k + 1)) as u64) == 0)) by (bit_vector);
}

/// The encoding of a value that fits after `k` groups is at most `10 - k`
/// bytes long; in particular, every `u64` takes between 1 and 10 bytes.
pub proof fn lemma_varint_len(v: u64, k: u64)
    requires
        varint_fits(v, k),
    ensures
        1 <= varint_bytes(v).len() <= 10 - k,
    decreases v,
{
    if v >= 128 {
        lemma_shr7_decreases(v);
        lemma_varint_fits_step(v, k);
        lemma_varint_len(v >> 7u64, (k + 1) as u64);
    }
}

/// Appends the varint encoding of `value` to `writer` and returns the number
/// of bytes written.
pub fn write_varint_u64_sync(value: u64, writer: &mut Vec<u8>) -> (written: usize)
    ensures
        final(writer)@ == old(writer)@ + varint_bytes(value),
        written == varint_bytes(value).len(),
{
    proof {
        lemma_varint_len(value, 0);
    }
    if value == 0 {
        writer.push(0u8);
        assert(varint_bytes(0) == seq![0u8]);
        return 1;
    }
    let mut bytes_written: usize = 0;
    let mut remaining: u64 = value;
    let ghost start = writer@;
    while remaining > 0
        invariant
            remaining > 0 ==> start + varint_bytes(value) == writer@ + varint_bytes(remaining),
            remaining == 0 ==> writer@ == start + varint_bytes(value),
            remaining > 0 ==> bytes_written + varint_bytes(remaining).len() == varint_bytes(
                value,
            ).len(),
            remaining == 0 ==> bytes_written == varint_bytes(value).len(),
            varint_bytes(value).len() <= 10,
        decreases remaining,
    {
        let ghost r = remaining;
        proof {
            lemma_varint_byte(r);
        }
        let mut byte: u8 = (remaining & 0x7f) as u8;
        remaining = remaining >> 7u64;
        if remaining > 0 {
            byte = byte | 0x80;
            proof {
                lemma_shr7_decreases(r);
            }
            assert(varint_bytes(r) == seq![byte] + varint_bytes(remaining));
        } else {
            assert(varint_bytes(r) == seq![byte]);
        }
        writer.push(byte);
        bytes_written = bytes_written + 1;
    }
    bytes_written
}

/// What reading a varint from the front of a byte stream gives.
#[derive(Debug, Clone, Copy, PartialEq, Eq, Structural)]
pub enum VarintRead {
    /// The stream ended before the first byte: the sender is gone.
    Closed,
    /// A value, and the number of bytes it took.
    Value(u64, usize),
    /// The stream ended in the middle of a varint.
    Truncated,
    /// Ten bytes with the continuation bit set: too large for a `u64`.
    TooLong,
}

/// Decoding of a varint from `bytes` after `k` bytes have been consumed and
/// their value bits gathered in `acc`. Byte `k` contributes its low seven
/// bits shifted left by `7 * k`, bits shifted out of the `u64` are lost.
pub open spec fn varint_decode_from(bytes: Seq<u8>, k: u64, acc: u64) -> VarintRead
    decreases 10 - k,
{
    if k >= 10 {
        VarintRead::TooLong
    } else if bytes.len() == 0 {
        if k == 0 {
            VarintRead::Closed
        } else {
            VarintRead::Truncated
        }
    } else {
        let b = bytes[0];
        let acc2 = acc | (((b & 0x7fu8) as u64) << ((7 * k) as u64));
        if b & 0x80u8 == 0 {
            VarintRead::Value(acc2, (k + 1) as usize)
        } else {
            varint_decode_from(bytes.drop_first(), (k + 1) as u64, acc2)
        }
    }
}

/// A decoded value never claims more bytes than the stream holds.
pub proof fn lemma_varint_decode_consumed(bytes: Seq<u8>, k: u64, acc: u64)
    ensures
        varint_decode_from(bytes, k, acc) matches VarintRead::Value(_, c) ==> k < c <= k
            + bytes.len() && c <= 10,
    decreases 10 - k,
{
    if k < 10 && bytes.len() > 0 && bytes[0] & 0x80u8 != 0 {
        let b = bytes[0];
        lemma_varint_decode_consumed(
            bytes.drop_first(),
            (k + 1) as u64,
            acc | (((b & 0x7fu8) as u64) << ((7 * k) as u64)),
        );
    }
}

/// Decoding of a varint from the front of `bytes`.
pub open spec fn varint_decode(bytes: Seq<u8>) -> VarintRead {
    varint_decode_from(bytes, 0, 0)
}

proof fn lemma_varint_merge(v: u64, k: u64, acc: u64)
    requires
        k <= 8,
    ensures
        (acc | ((v & 0x7f) << ((7 * k) as u64))) | ((v >> 7u64) << ((7 * (k + 1)) as u64)) == acc
            | (v << ((7 * k) as u64)),
{
    assert(k <= 8 ==> (acc | ((v & 0x7f) << ((7 * k) as u64))) | ((v >> 7u64) << ((7 * (k
        + 1)) as u64)) == acc | (v << ((7 * k) as u64))) by (bit_vector);
}

/// Decoding the encoding of `v`, started after `k` groups with `acc`
/// gathered, adds `v << (7 * k)` to `acc` and stops right after the encoding.
pub proof fn lemma_varint_decode_encode_from(v: u64, k: u64, acc: u64, rest: Seq<u8>)
    requires
        varint_fits(v, k),
    ensures
        varint_decode_from(varint_bytes(v) + rest, k, acc) == VarintRead::Value(
            acc | (v << ((7 * k) as u64)),
            (k + varint_bytes(v).len()) as usize,
        ),
    decreases v,
{
    lemma_varint_byte(v);
    lemma_varint_len(v, k);
    let bytes = varint_bytes(v) + rest;
    if v < 128 {
        assert(bytes[0] == v as u8);
    } else {
        lemma_shr7_decreases(v);
        lemma_varint_fits_step(v, k);
        let b = (((v & 0x7f) | 0x80) as u8);
        assert(bytes[0] == b);
        assert(bytes.drop_first() == varint_bytes(v >> 7u64) + rest);
        lemma_varint_decode_encode_from(
            v >> 7u64,
            (k + 1) as u64,
            acc | ((v & 0x7f) << ((7 * k) as u64)),
            rest,
        );
        lemma_varint_merge(v, k, acc);
    }
}

/// Decoding gives back what encoding wrote: reading a varint from the front
/// of the encoding of `v`, whatever follows it, yields `v` and the length of
/// the encoding.
pub proof fn lemma_varint_roundtrip(v: u64, rest: Seq<u8>)
    ensures
        varint_decode(varint_bytes(v) + rest) == VarintRead::Value(v, varint_bytes(v).len() as usize),
        1 <= varint_bytes(v).len() <= 10,
{
    lemma_varint_decode_encode_from(v, 0, 0, rest);
    lemma_varint_len(v, 0);
    assert((0u64 | (v << 0u64)) == v) by (bit_vector);
}

/// The incremental state of reading a varint one byte at a time: how many
/// bytes were consumed and the value bits gathered so far.
pub struct VarintReader {
    consumed: u64,
    result: u64,
}

impl VarintReader {
    pub closed spec fn consumed_spec(&self) -> u64 {
        self.consumed
    }

    pub closed spec fn result_spec(&self) -> u64 {
        self.result
    }

    pub closed spec fn wf(&self) -> bool {
        self.consumed <= 10
    }

    /// A reader that has consumed nothing.
    pub fn new() -> (r: Self)
        ensures
            r.wf(),
            r.consumed_spec() == 0,
            r.result_spec() == 0,
    {
        VarintReader { consumed: 0, result: 0 }
    }

    /// Whether no byte has been consumed yet; an end of stream here means
    /// that the sender is gone rather than a truncated varint.
    pub fn at_start(&self) -> (b: bool)
        ensures
            b == (self.consumed_spec() == 0),
    {
        self.consumed == 0
    }

    /// Whether the shift has reached 64 bits: one more byte cannot be taken.
    pub fn is_exhausted(&self) -> (b: bool)
        ensures
            b == (self.consumed_spec() >= 10),
    {
        self.consumed >= 10
    }

    /// Takes one byte. Returns the value when the byte ends the varint.
    pub fn feed(&mut self, byte: u8) -> (r: Option<u64>)
        requires
            old(self).wf(),
            old(self).consumed_spec() < 10,
        ensures
            final(self).wf(),
            byte & 0x80u8 == 0 ==> r == Some(
                old(self).result_spec() | (((byte & 0x7fu8) as u64) << ((7 * old(
                    self,
                ).consumed_spec()) as u64)),
            ),
            byte & 0x80u8 != 0 ==> r is None && final(self).consumed_spec() == old(
                self,
            ).consumed_spec() + 1 && final(self).result_spec() == old(self).result_spec() | (((byte
                & 0x7fu8) as u64) << ((7 * old(self).consumed_spec()) as u64)),
    {
        let shift: u64 = 7 * self.consumed;
        let value: u64 = (byte & 0x7f) as u64;
        self.result = self.result | (value << shift);
        if byte & 0x80 == 0 {
            Some(self.result)
        } else {
            self.consumed = self.consumed + 1;
            None
        }
    }
}

/// Reads a varint from the front of `bytes`, the bytes that the stream holds
/// until its end.
pub fn read_varint_u64(bytes: &[u8]) -> (r: VarintRead)
    ensures
        r == varint_decode(bytes@),
{
    let mut reader = VarintReader::new();
    let mut i: usize = 0;
    assert(bytes@.subrange(0, bytes@.len() as int) == bytes@);
    while i <= bytes.len()
        invariant
            reader.wf(),
            i <= bytes.len(),
            i == reader.consumed_spec(),
            varint_decode(bytes@) == varint_decode_from(
                bytes@.subrange(i as int, bytes@.len() as int),
                reader.consumed_spec(),
                reader.result_spec(),
            ),
        decreases bytes.len() - i,
    {
        if reader.is_exhausted() {
            return VarintRead::TooLong;
        }
        if i == bytes.len() {
            if reader.at_start() {
                return VarintRead::Closed;
            } else {
                return VarintRead::Truncated;
            }
        }
        let byte = bytes[i];
        let ghost rest = bytes@.subrange(i as int, bytes@.len() as int);
        assert(rest[0] == byte);
        assert(rest.drop_first() == bytes@.subrange(i + 1, bytes@.len() as int));
        match reader.feed(byte) {
            Some(value) => {
                return VarintRead::Value(value, i + 1);
            },
            None => {},
        }
        i = i + 1;
    }
    VarintRead::Truncated
}

/// The frame of a payload: the varint of its length, then the payload.
pub open spec fn frame_bytes(payload: Seq<u8>) -> Seq<u8> {
    varint_bytes(payload.len() as u64) + payload
}

/// What reading one frame from the front of a byte stream gives.
#[derive(Debug, Clone, Copy, PartialEq, Eq, Structural)]
pub enum FrameRead {
    /// The stream ended before the frame started.
    Closed,
    /// The payload stands at `payload_start..payload_end`; the frame ends at
    /// `payload_end`.
    Frame { payload_start: usize, payload_end: usize },
    /// The announced length is above the limit.
    TooLarge(u64),
    /// The stream ended inside the frame.
    Truncated,
    /// The length prefix is not a valid `u64` varint.
    VarintTooLong,
}

/// Reading one frame whose payload may be at most `max_size` bytes long.
pub open spec fn frame_decode(bytes: Seq<u8>, max_size: u64) -> FrameRead {
    match varint_decode(bytes) {
        VarintRead::Closed => FrameRead::Closed,
        VarintRead::Truncated => FrameRead::Truncated,
        VarintRead::TooLong => FrameRead::VarintTooLong,
        VarintRead::Value(size, header) => {
            if size > max_size {
                FrameRead::TooLarge(size)
            } else if header + size > bytes.len() {
                FrameRead::Truncated
            } else {
                FrameRead::Frame {
                    payload_start: header,
                    payload_end: (header + size) as usize,
                }
            }
        },
    }
}

/// A framed payload is read back whole: whatever follows the frame, reading
/// it gives the payload and the frame's end, as long as the payload is within
/// the limit; a longer payload is refused with its length.
pub proof fn lemma_frame_roundtrip(payload: Seq<u8>, rest: Seq<u8>, max_size: u64)
    requires
        payload.len() <= u64::MAX,
    ensures
        ({
            let bytes = frame_bytes(payload) + rest;
            let header = varint_bytes(payload.len() as u64).len();
            &&& payload.len() <= max_size ==> frame_decode(bytes, max_size) == FrameRead::Frame {
                payload_start: header as usize,
                payload_end: (header + payload.len()) as usize,
            } && bytes.subrange(header as int, (header + payload.len()) as int) == payload
            &&& payload.len() > max_size ==> frame_decode(bytes, max_size) == FrameRead::TooLarge(
                payload.len() as u64,
            )
        }),
{
    let len = payload.len() as u64;
    let header = varint_bytes(len);
    let bytes = frame_bytes(payload) + rest;
    assert(bytes == header + (payload + rest));
    lemma_varint_roundtrip(len, payload + rest);
    assert(bytes.subrange(header.len() as int, (header.len() + payload.len()) as int) == payload);
}

/// Appends the frame of `payload` to `out`.
pub fn write_length_prefixed(payload: &[u8], out: &mut Vec<u8>)
    ensures
        final(out)@ == old(out)@ + frame_bytes(payload@),
{
    write_varint_u64_sync(payload.len() as u64, out);
    let ghost mid = out@;
    let mut i: usize = 0;
    while i < payload.len()
        invariant
            i <= payload.len(),
            out@ == mid + payload@.subrange(0, i as int),
        decreases payload.len() - i,
    {
        out.push(payload[i]);
        assert(payload@.subrange(0, i + 1) == payload@.subrange(0, i as int).push(payload@[i as int]));
        i = i + 1;
    }
    assert(payload@.subrange(0, payload.len() as int) == payload@);
}

/// Reads one frame from the front of `bytes`, whose payload may be at most
/// `max_size` bytes long.
pub fn read_frame(bytes: &[u8], max_size: u64) -> (r: FrameRead)
    ensures
        r == frame_decode(bytes@, max_size),
{
    proof {
        lemma_varint_decode_consumed(bytes@, 0, 0);
    }
    match read_varint_u64(bytes) {
        VarintRead::Closed => FrameRead::Closed,
        VarintRead::Truncated => FrameRead::Truncated,
        VarintRead::TooLong => FrameRead::VarintTooLong,
        VarintRead::Value(size, header) => {
            if size > max_size {
                FrameRead::TooLarge(size)
            } else if size > (bytes.len() - header) as u64 {
                FrameRead::Truncated
            } else {
                FrameRead::Frame { payload_start: header, payload_end: header + size as usize }
            }
        },
    }
}

/// The kind of a stream failure that the framing reports.
#[derive(Debug, Clone, Copy, PartialEq, Eq, Structural)]
pub enum IoErrorKind {
    /// The stream ended inside a frame.
    UnexpectedEof,
    /// The bytes are not a valid frame or message.
    InvalidData,
}

/// Why a message could not be sent.
#[derive(Debug, Clone, Copy, PartialEq, Eq, Structural)]
pub enum SendError {
    Io(IoErrorKind),
    /// The serialized message is longer than [`MAX_MESSAGE_SIZE`].
    MaxMessageSizeExceeded,
    /// Writing to the stream failed.
    WriteError,
}

/// Why a message could not be received.
#[derive(Debug, Clone, Copy, PartialEq, Eq, Structural)]
pub enum RecvError {
    Io(IoErrorKind),
    /// The announced length is above [`MAX_MESSAGE_SIZE`].
    MaxMessageSizeExceeded,
}

/// Prepares the frame of a serialized message for sending: a payload longer
/// than [`MAX_MESSAGE_SIZE`] is refused and `buffer` is left as it was;
/// otherwise `buffer` holds exactly the frame of the payload.
pub fn frame_message(payload: &[u8], buffer: &mut Vec<u8>) -> (r: Result<(), SendError>)
    ensures
        r is Err <==> payload@.len() > MAX_MESSAGE_SIZE,
        r is Err ==> r == Err::<(), SendError>(SendError::MaxMessageSizeExceeded) && final(buffer)@
            == old(buffer)@,
        r is Ok ==> final(buffer)@ == frame_bytes(payload@),
{
    if payload.len() as u64 > MAX_MESSAGE_SIZE {
        return Err(SendError::MaxMessageSizeExceeded);
    }
    buffer.clear();
    write_length_prefixed(payload, buffer);
    Ok(())
}

/// Checks the length announced by a frame before its payload is read: one
/// above [`MAX_MESSAGE_SIZE`] is refused, any other is returned as a count.
pub fn check_recv_size(size: u64) -> (r: Result<usize, RecvError>)
    ensures
        size > MAX_MESSAGE_SIZE ==> r == Err::<usize, RecvError>(
            RecvError::MaxMessageSizeExceeded,
        ),
        size <= MAX_MESSAGE_SIZE ==> r == Ok::<usize, RecvError>(size as usize),
{
    if size > MAX_MESSAGE_SIZE {
        Err(RecvError::MaxMessageSizeExceeded)
    } else {
        Ok(size as usize)
    }
}

/// What receiving makes of a frame read with the limit
/// [`MAX_MESSAGE_SIZE`]: an end of stream before the frame is no message,
/// a frame gives the range of its payload.
pub open spec fn recv_result_spec(read: FrameRead) -> Result<Option<(usize, usize)>, RecvError> {
    match read {
        FrameRead::Closed => Ok(None),
        FrameRead::Frame { payload_start, payload_end } => Ok(Some((payload_start, payload_end))),
        FrameRead::TooLarge(_) => Err(RecvError::MaxMessageSizeExceeded),
        FrameRead::Truncated => Err(RecvError::Io(IoErrorKind::UnexpectedEof)),
        FrameRead::VarintTooLong => Err(RecvError::Io(IoErrorKind::InvalidData)),
    }
}

/// Receives one message from the bytes that a stream holds until its end:
/// `None` when the stream ended before the message, else the range of the
/// payload within `bytes`.
pub fn recv_frame(bytes: &[u8]) -> (r: Result<Option<(usize, usize)>, RecvError>)
    ensures
        r == recv_result_spec(frame_decode(bytes@, MAX_MESSAGE_SIZE)),
{
    match read_frame(bytes, MAX_MESSAGE_SIZE) {
        FrameRead::Closed => Ok(None),
        FrameRead::Frame { payload_start, payload_end } => Ok(Some((payload_start, payload_end))),
        FrameRead::TooLarge(_) => Err(RecvError::MaxMessageSizeExceeded),
        FrameRead::Truncated => Err(RecvError::Io(IoErrorKind::UnexpectedEof)),
        FrameRead::VarintTooLong => Err(RecvError::Io(IoErrorKind::InvalidData)),
    }
}

/// What reading a length-prefixed value makes of a frame: here an end of
/// stream before the frame is an error too, and so is a length above the
/// limit.
pub open spec fn length_prefixed_result_spec(read: FrameRead) -> Result<(usize, usize), IoErrorKind> {
    match read {
        FrameRead::Frame { payload_start, payload_end } => Ok((payload_start, payload_end)),
        FrameRead::Closed => Err(IoErrorKind::UnexpectedEof),
        FrameRead::Truncated => Err(IoErrorKind::UnexpectedEof),
        FrameRead::TooLarge(_) => Err(IoErrorKind::InvalidData),
        FrameRead::VarintTooLong => Err(IoErrorKind::InvalidData),
    }
}

/// Reads a length-prefixed value of at most `max_size` bytes from the bytes
/// that a stream holds until its end, and returns the range of the payload.
pub fn read_length_prefixed(bytes: &[u8], max_size: u64) -> (r: Result<(usize, usize), IoErrorKind>)
    ensures
        r == length_prefixed_result_spec(frame_decode(bytes@, max_size)),
{
    match read_frame(bytes, max_size) {
        FrameRead::Frame { payload_start, payload_end } => Ok((payload_start, payload_end)),
        FrameRead::Closed => Err(IoErrorKind::UnexpectedEof),
        FrameRead::Truncated => Err(IoErrorKind::UnexpectedEof),
        FrameRead::TooLarge(_) => Err(IoErrorKind::InvalidData),
        FrameRead::VarintTooLong => Err(IoErrorKind::InvalidData),
    }
}

/// What one side sends the other receives: a payload that sending accepts is
/// received whole from the stream, whatever the stream holds after it.
pub proof fn lemma_send_recv(payload: Seq<u8>, rest: Seq<u8>)
    requires
        payload.len() <= MAX_MESSAGE_SIZE,
    ensures
        ({
            let bytes = frame_bytes(payload) + rest;
            &&& recv_result_spec(frame_decode(bytes, MAX_MESSAGE_SIZE)) matches Ok(Some((s, e)))
            &&& bytes.subrange(s as int, e as int) == payload
            &&& e == frame_bytes(payload).len()
        }),
{
    lemma_frame_roundtrip(payload, rest, MAX_MESSAGE_SIZE);
    lemma_varint_len(payload.len() as u64, 0);
    let header = varint_bytes(payload.len() as u64).len();
    assert(header + payload.len() <= 16777226);
    assert(((header + payload.len()) as usize) as int == header + payload.len());
}

} // verus!
