//! The wire frame: a fixed 16-byte big-endian header followed by the body.

use vstd::prelude::*;
use vstd::slice::slice_subrange;
use vstd::slice::slice_to_vec;
use vstd::utf8::decode_utf8;
use vstd::utf8::valid_utf8;

verus! {

/// Size of the fixed frame header in bytes.
pub const HEADER_LENGTH: usize = 16;

/// Largest body a frame may carry (1 MiB).
pub const MAX_BODY_SIZE: usize = 1048576;

/// Opcode of a client heartbeat frame.
pub const OP_HEARTBEAT: u32 = 2;

/// Opcode of the server's heartbeat acknowledgement.
pub const OP_HEARTBEAT_REPLY: u32 = 3;

/// Opcode of a business message.
pub const OP_MESSAGE: u32 = 5;

/// Opcode of the authentication request.
pub const OP_AUTH: u32 = 7;

/// Opcode of the authentication acknowledgement.
pub const OP_AUTH_REPLY: u32 = 8;

/// Body encoding: plain UTF-8 text.
pub const VER_PLAIN: u16 = 0;

/// Body encoding: zlib-compressed, possibly wrapping another whole frame.
pub const VER_ZLIB: u16 = 2;

/// How many compressed frames may be nested inside one another.
pub const MAX_NESTING: u32 = 16;

/// One unit of wire transfer.
#[derive(Debug, Clone)]
pub struct Proto {
    pub packet_len: u32,
    pub header_len: u16,
    pub ver: u16,
    pub op: u32,
    pub seq: u32,
    pub body: Vec<u8>,
}

/// Why a frame could not be read or its body not be decoded.
#[derive(Debug, Clone, Copy, PartialEq, Eq, Structural)]
pub enum ProtoError {
    /// Fewer than 16 bytes were supplied.
    FrameTooShort,
    /// The declared packet length exceeds 16 bytes plus the body limit.
    BodyTooLarge,
    /// The declared header length is not 16.
    BadHeaderLength,
    /// The declared packet length is smaller than the header itself.
    BadPacketLength,
    /// The buffer ends before the declared packet length.
    TruncatedBody,
    /// The body is not valid UTF-8.
    Utf8Error,
    /// The compressed body could not be inflated.
    InflateError,
    /// Compressed frames are nested deeper than `MAX_NESTING`.
    NestingTooDeep,
    /// The version field names no known body encoding.
    UnsupportedVersion,
}

/// The message that goes with each error.
pub open spec fn error_text(e: ProtoError) -> Seq<char> {
    match e {
        ProtoError::FrameTooShort => "包头不够"@,
        ProtoError::BodyTooLarge => "包体长度不对"@,
        ProtoError::BadHeaderLength => "包头长度不对"@,
        ProtoError::BadPacketLength => "包长度不对"@,
        ProtoError::TruncatedBody => "数据不完整"@,
        ProtoError::Utf8Error => "解码UTF-8失败"@,
        ProtoError::InflateError => "解压缩失败"@,
        ProtoError::NestingTooDeep => "嵌套层数过多"@,
        ProtoError::UnsupportedVersion => "不支持的版本"@,
    }
}

impl ProtoError {
    /// The message for people that goes with this error.
    pub fn message(&self) -> (s: &'static str)
        ensures
            s@ == error_text(*self),
    {
        match self {
            ProtoError::FrameTooShort => "包头不够",
            ProtoError::BodyTooLarge => "包体长度不对",
            ProtoError::BadHeaderLength => "包头长度不对",
            ProtoError::BadPacketLength => "包长度不对",
            ProtoError::TruncatedBody => "数据不完整",
            ProtoError::Utf8Error => "解码UTF-8失败",
            ProtoError::InflateError => "解压缩失败",
            ProtoError::NestingTooDeep => "嵌套层数过多",
            ProtoError::UnsupportedVersion => "不支持的版本",
        }
    }
}

/// The mathematical content of a frame.
pub struct Frame {
    pub packet_len: int,
    pub header_len: int,
    pub ver: int,
    pub op: int,
    pub seq: int,
    pub body: Seq<u8>,
}

/// The four bytes of `x`, most significant first.
pub open spec fn be_bytes_u32(x: int) -> Seq<u8> {
    seq![
        (x / 0x1000000) as u8,
        ((x / 0x10000) % 0x100) as u8,
        ((x / 0x100) % 0x100) as u8,
        (x % 0x100) as u8,
    ]
}

/// The two bytes of `x`, most significant first.
pub open spec fn be_bytes_u16(x: int) -> Seq<u8> {
    seq![(x / 0x100) as u8, (x % 0x100) as u8]
}

/// The big-endian number held in the four bytes of `b` starting at `at`.
pub open spec fn be_u32_at(b: Seq<u8>, at: int) -> int {
    b[at] * 0x1000000 + b[at + 1] * 0x10000 + b[at + 2] * 0x100 + b[at + 3]
}

/// The big-endian number held in the two bytes of `b` starting at `at`.
pub open spec fn be_u16_at(b: Seq<u8>, at: int) -> int {
    b[at] * 0x100 + b[at + 1]
}

/// The bytes that carry a frame with the given version, opcode, sequence
/// number and body.
pub open spec fn packed(ver: int, op: int, seq: int, body: Seq<u8>) -> Seq<u8> {
    be_bytes_u32(body.len() as int + 16) + be_bytes_u16(16) + be_bytes_u16(ver) + be_bytes_u32(op)
        + be_bytes_u32(seq) + body
}

/// What reading a frame from `buf` yields: the frame, or the first check
/// that fails.
pub open spec fn unpacked(buf: Seq<u8>) -> Result<Frame, ProtoError> {
    if buf.len() < 16 {
        Err(ProtoError::FrameTooShort)
    } else if be_u32_at(buf, 0) > 16 + MAX_BODY_SIZE {
        Err(ProtoError::BodyTooLarge)
    } else if be_u16_at(buf, 4) != 16 {
        Err(ProtoError::BadHeaderLength)
    } else if be_u32_at(buf, 0) < 16 {
        Err(ProtoError::BadPacketLength)
    } else if buf.len() < be_u32_at(buf, 0) {
        Err(ProtoError::TruncatedBody)
    } else {
        Ok(
            Frame {
                packet_len: be_u32_at(buf, 0),
                header_len: 16,
                ver: be_u16_at(buf, 6),
                op: be_u32_at(buf, 8),
                seq: be_u32_at(buf, 12),
                body: buf.subrange(16, be_u32_at(buf, 0)),
            },
        )
    }
}

fn read_u32(buf: &[u8], at: usize) -> (x: u32)
    requires
        at + 4 <= buf@.len(),
    ensures
        x == be_u32_at(buf@, at as int),
{
    let b0: u32 = buf[at] as u32;
    let b1: u32 = buf[at + 1] as u32;
    let b2: u32 = buf[at + 2] as u32;
    let b3: u32 = buf[at + 3] as u32;
    b0 * 0x1000000 + b1 * 0x10000 + b2 * 0x100 + b3
}

fn read_u16(buf: &[u8], at: usize) -> (x: u16)
    requires
        at + 2 <= buf@.len(),
    ensures
        x == be_u16_at(buf@, at as int),
{
    let b0: u16 = buf[at] as u16;
    let b1: u16 = buf[at + 1] as u16;
    b0 * 0x100 + b1
}

fn write_u32(out: &mut Vec<u8>, x: u32)
    ensures
        final(out)@ == old(out)@ + be_bytes_u32(x as int),
{
    out.push((x / 0x1000000) as u8);
    out.push(((x / 0x10000) % 0x100) as u8);
    out.push(((x / 0x100) % 0x100) as u8);
    out.push((x % 0x100) as u8);
    assert(out@ =~= old(out)@ + be_bytes_u32(x as int));
}

fn write_u16(out: &mut Vec<u8>, x: u16)
    ensures
        final(out)@ == old(out)@ + be_bytes_u16(x as int),
{
    out.push((x / 0x100) as u8);
    out.push((x % 0x100) as u8);
    assert(out@ =~= old(out)@ + be_bytes_u16(x as int));
}

impl View for Proto {
    type V = Frame;

    open spec fn view(&self) -> Frame {
        Frame {
            packet_len: self.packet_len as int,
            header_len: self.header_len as int,
            ver: self.ver as int,
            op: self.op as int,
            seq: self.seq as int,
            body: self.body@,
        }
    }
}

impl Default for Proto {
    /// The empty frame of `Proto::new`.
    fn default() -> (p: Proto)
        ensures
            p@ == (Frame {
                packet_len: 0,
                header_len: 16,
                ver: 0,
                op: 0,
                seq: 0,
                body: Seq::<u8>::empty(),
            }),
    {
        Proto::new()
    }
}

impl Proto {
    /// An empty frame: header length 16, every other field zero, no body.
    pub fn new() -> (p: Proto)
        ensures
            p@ == (Frame {
                packet_len: 0,
                header_len: 16,
                ver: 0,
                op: 0,
                seq: 0,
                body: Seq::<u8>::empty(),
            }),
    {
        Proto { packet_len: 0, header_len: 16, ver: 0, op: 0, seq: 0, body: Vec::new() }
    }

    /// Serialises the frame. The bytes carry the body length plus 16 as the
    /// packet length and 16 as the header length, whatever the two fields
    /// held; the packet length is stored back into the frame, and nothing
    /// else of it changes.
    pub fn pack(&mut self) -> (out: Vec<u8>)
        requires
            old(self).body@.len() + 16 <= u32::MAX,
        ensures
            out@ == packed(old(self)@.ver, old(self)@.op, old(self)@.seq, old(self)@.body),
            final(self)@ == (Frame {
                packet_len: old(self)@.body.len() as int + 16,
                ..old(self)@
            }),
    {
        self.packet_len = (self.body.len() + HEADER_LENGTH) as u32;
        let mut out: Vec<u8> = Vec::new();
        write_u32(&mut out, self.packet_len);
        write_u16(&mut out, 16);
        write_u16(&mut out, self.ver);
        write_u32(&mut out, self.op);
        write_u32(&mut out, self.seq);
        out.extend_from_slice(self.body.as_slice());
        assert(out@ =~= packed(self@.ver, self@.op, self@.seq, self@.body));
        out
    }

    /// Reads one frame from the front of `buf`. On success every field is
    /// replaced by what the buffer holds; on failure the frame is left as it
    /// was.
    pub fn unpack(&mut self, buf: &[u8]) -> (r: Result<(), ProtoError>)
        ensures
            match unpacked(buf@) {
                Ok(frame) => r is Ok && final(self)@ == frame,
                Err(e) => r == Err::<(), ProtoError>(e) && *final(self) == *old(self),
            },
    {
        if buf.len() < HEADER_LENGTH {
            return Err(ProtoError::FrameTooShort);
        }
        let packet_len: u32 = read_u32(buf, 0);
        let header_len: u16 = read_u16(buf, 4);
        let ver: u16 = read_u16(buf, 6);
        let op: u32 = read_u32(buf, 8);
        let seq: u32 = read_u32(buf, 12);
        if packet_len as usize > HEADER_LENGTH + MAX_BODY_SIZE {
            return Err(ProtoError::BodyTooLarge);
        }
        if header_len as usize != HEADER_LENGTH {
            return Err(ProtoError::BadHeaderLength);
        }
        if (packet_len as usize) < HEADER_LENGTH {
            return Err(ProtoError::BadPacketLength);
        }
        if buf.len() < packet_len as usize {
            return Err(ProtoError::TruncatedBody);
        }
        let body = slice_to_vec(slice_subrange(buf, HEADER_LENGTH, packet_len as usize));
        self.packet_len = packet_len;
        self.header_len = header_len;
        self.ver = ver;
        self.op = op;
        self.seq = seq;
        self.body = body;
        Ok(())
    }
}

/// The output of inflating the zlib stream `data` to its end, or `None`
/// where the stream is corrupt or incomplete.
pub uninterp spec fn zlib_inflated(data: Seq<u8>) -> Option<Seq<u8>>;

/// Runs `flate2::read::ZlibDecoder` over `data` until it reports the end of
/// its output. Nothing is proved of the decompressor: its result is only
/// given the name `zlib_inflated`, and a read error becomes `None`.
#[verifier::external_body]
fn inflate(data: &[u8]) -> (r: Option<Vec<u8>>)
    ensures
        match r {
            Some(raw) => zlib_inflated(data@) == Some(raw@),
            None => zlib_inflated(data@) is None,
        },
{
    let mut raw: Vec<u8> = Vec::new();
    let mut decoder = flate2::read::ZlibDecoder::new(data);
    match std::io::Read::read_to_end(&mut decoder, &mut raw) {
        Ok(_) => Some(raw),
        Err(_) => None,
    }
}

/// `String::from_utf8`: succeeds exactly on well-formed UTF-8 and then
/// holds the characters that the bytes encode.
#[verifier::external_body]
fn utf8_string(bytes: Vec<u8>) -> (r: Option<String>)
    ensures
        r is Some <==> valid_utf8(bytes@),
        r matches Some(s) ==> s@ == decode_utf8(bytes@),
{
    match String::from_utf8(bytes) {
        Ok(s) => Some(s),
        Err(_) => None,
    }
}

/// The text that `bytes` hold as UTF-8.
pub open spec fn utf8_text(bytes: Seq<u8>) -> Result<Seq<char>, ProtoError> {
    if valid_utf8(bytes) {
        Ok(decode_utf8(bytes))
    } else {
        Err(ProtoError::Utf8Error)
    }
}

/// Whether inflated bytes are one whole frame: at least a header long, and
/// their first four bytes state exactly their own length.
pub open spec fn is_nested_frame(raw: Seq<u8>) -> bool {
    raw.len() >= 16 && be_u32_at(raw, 0) == raw.len()
}

/// The text of inflated bytes, with `fuel` further levels of nesting
/// allowed: the text of the frame they form, or else the bytes themselves
/// as UTF-8.
pub open spec fn inflated_text(raw: Seq<u8>, fuel: nat) -> Result<Seq<char>, ProtoError>
    decreases fuel, 0nat,
{
    if is_nested_frame(raw) {
        if fuel == 0 {
            Err(ProtoError::NestingTooDeep)
        } else {
            match unpacked(raw) {
                Ok(inner) => body_text(inner.ver, inner.body, (fuel - 1) as nat),
                Err(e) => Err(e),
            }
        }
    } else {
        utf8_text(raw)
    }
}

/// The text of a body under the encoding that `ver` names, with `fuel`
/// levels of nesting allowed.
pub open spec fn body_text(ver: int, body: Seq<u8>, fuel: nat) -> Result<Seq<char>, ProtoError>
    decreases fuel, 1nat,
{
    if ver == 0 {
        utf8_text(body)
    } else if ver == 2 {
        match zlib_inflated(body) {
            Some(raw) => inflated_text(raw, fuel),
            None => Err(ProtoError::InflateError),
        }
    } else {
        Err(ProtoError::UnsupportedVersion)
    }
}

/// Whether an executable result holds what the specification `t` says.
pub open spec fn text_is(r: Result<String, ProtoError>, t: Result<Seq<char>, ProtoError>) -> bool {
    match t {
        Ok(chars) => r matches Ok(s) && s@ == chars,
        Err(e) => r matches Err(f) && f == e,
    }
}

fn text_of(bytes: Vec<u8>) -> (r: Result<String, ProtoError>)
    ensures
        text_is(r, utf8_text(bytes@)),
{
    match utf8_string(bytes) {
        Some(s) => Ok(s),
        None => Err(ProtoError::Utf8Error),
    }
}

/// Tells whether inflated bytes form one whole frame.
pub fn looks_like_frame(raw: &[u8]) -> (b: bool)
    ensures
        b == is_nested_frame(raw@),
{
    raw.len() >= HEADER_LENGTH && read_u32(raw, 0) as usize == raw.len()
}

/// Decodes bytes that came out of the decompressor: a nested frame is
/// unpacked and its body decoded in turn, with `depth` further levels
/// allowed; anything else is read as UTF-8.
pub fn decode_inflated(raw: Vec<u8>, depth: u32) -> (r: Result<String, ProtoError>)
    ensures
        text_is(r, inflated_text(raw@, depth as nat)),
    decreases depth, 0nat,
{
    if looks_like_frame(raw.as_slice()) {
        if depth == 0 {
            return Err(ProtoError::NestingTooDeep);
        }
        let mut inner = Proto::new();
        match inner.unpack(raw.as_slice()) {
            Ok(()) => inner.body_string_within(depth - 1),
            Err(e) => Err(e),
        }
    } else {
        text_of(raw)
    }
}

impl Proto {
    /// The body as text, allowing `depth` levels of nested compressed
    /// frames.
    pub fn body_string_within(&self, depth: u32) -> (r: Result<String, ProtoError>)
        ensures
            text_is(r, body_text(self@.ver, self@.body, depth as nat)),
        decreases depth, 1nat,
    {
        if self.ver == VER_PLAIN {
            text_of(self.body.clone())
        } else if self.ver == VER_ZLIB {
            match inflate(self.body.as_slice()) {
                Some(raw) => decode_inflated(raw, depth),
                None => Err(ProtoError::InflateError),
            }
        } else {
            Err(ProtoError::UnsupportedVersion)
        }
    }

    /// The body as text: version 0 is UTF-8 as it stands, version 2 is
    /// inflated first and may wrap further frames, up to `MAX_NESTING`
    /// levels.
    pub fn get_body_string(&self) -> (r: Result<String, ProtoError>)
        ensures
            text_is(r, body_text(self@.ver, self@.body, MAX_NESTING as nat)),
    {
        self.body_string_within(MAX_NESTING)
    }
}

proof fn lemma_read_u32(buf: Seq<u8>, at: int, x: int)
    requires
        0 <= x <= u32::MAX,
        0 <= at,
        at + 4 <= buf.len(),
        buf.subrange(at, at + 4) == be_bytes_u32(x),
    ensures
        be_u32_at(buf, at) == x,
{
    let w = be_bytes_u32(x);
    assert(buf[at] == buf.subrange(at, at + 4)[0]);
    assert(buf[at + 1] == buf.subrange(at, at + 4)[1]);
    assert(buf[at + 2] == buf.subrange(at, at + 4)[2]);
    assert(buf[at + 3] == buf.subrange(at, at + 4)[3]);
    assert(w[0] == x / 0x1000000);
    assert(w[1] == (x / 0x10000) % 0x100);
    assert(w[2] == (x / 0x100) % 0x100);
    assert(w[3] == x % 0x100);
}

proof fn lemma_read_u16(buf: Seq<u8>, at: int, x: int)
    requires
        0 <= x <= u16::MAX,
        0 <= at,
        at + 2 <= buf.len(),
        buf.subrange(at, at + 2) == be_bytes_u16(x),
    ensures
        be_u16_at(buf, at) == x,
{
    let w = be_bytes_u16(x);
    assert(buf[at] == buf.subrange(at, at + 2)[0]);
    assert(buf[at + 1] == buf.subrange(at, at + 2)[1]);
    assert(w[0] == x / 0x100);
    assert(w[1] == x % 0x100);
}

/// Reading back what `packed` wrote gives the same version, opcode,
/// sequence number and body, for every body within the size limit.
pub proof fn lemma_unpack_packed(ver: int, op: int, seq: int, body: Seq<u8>)
    requires
        0 <= ver <= u16::MAX,
        0 <= op <= u32::MAX,
        0 <= seq <= u32::MAX,
        body.len() <= MAX_BODY_SIZE,
    ensures
        unpacked(packed(ver, op, seq, body)) == Ok::<Frame, ProtoError>(
            Frame { packet_len: body.len() as int + 16, header_len: 16, ver, op, seq, body },
        ),
{
    let buf = packed(ver, op, seq, body);
    let len = body.len() as int + 16;
    assert(buf.len() == len);
    assert(be_u32_at(buf, 0) == len) by {
        assert(buf.subrange(0, 4) =~= be_bytes_u32(len));
        lemma_read_u32(buf, 0, len);
    }
    assert(be_u16_at(buf, 4) == 16) by {
        assert(buf.subrange(4, 6) =~= be_bytes_u16(16));
        lemma_read_u16(buf, 4, 16);
    }
    assert(be_u16_at(buf, 6) == ver) by {
        assert(buf.subrange(6, 8) =~= be_bytes_u16(ver));
        lemma_read_u16(buf, 6, ver);
    }
    assert(be_u32_at(buf, 8) == op) by {
        assert(buf.subrange(8, 12) =~= be_bytes_u32(op));
        lemma_read_u32(buf, 8, op);
    }
    assert(be_u32_at(buf, 12) == seq) by {
        assert(buf.subrange(12, 16) =~= be_bytes_u32(seq));
        lemma_read_u32(buf, 12, seq);
    }
    assert(buf.subrange(16, len) == body) by {
        assert(buf.subrange(16, len) =~= body);
    }
}

proof fn lemma_write_u32(buf: Seq<u8>, at: int)
    requires
        0 <= at,
        at + 4 <= buf.len(),
    ensures
        be_bytes_u32(be_u32_at(buf, at)) == buf.subrange(at, at + 4),
{
    let x = be_u32_at(buf, at);
    let b0 = buf[at] as int;
    let b1 = buf[at + 1] as int;
    let b2 = buf[at + 2] as int;
    let b3 = buf[at + 3] as int;
    assert(x == b0 * 0x1000000 + b1 * 0x10000 + b2 * 0x100 + b3);
    assert(x / 0x1000000 == b0);
    assert((x / 0x10000) % 0x100 == b1);
    assert((x / 0x100) % 0x100 == b2);
    assert(x % 0x100 == b3);
    assert(be_bytes_u32(x) =~= buf.subrange(at, at + 4));
}

proof fn lemma_write_u16(buf: Seq<u8>, at: int)
    requires
        0 <= at,
        at + 2 <= buf.len(),
    ensures
        be_bytes_u16(be_u16_at(buf, at)) == buf.subrange(at, at + 2),
{
    let x = be_u16_at(buf, at);
    let b0 = buf[at] as int;
    let b1 = buf[at + 1] as int;
    assert(x == b0 * 0x100 + b1);
    assert(x / 0x100 == b0);
    assert(x % 0x100 == b1);
    assert(be_bytes_u16(x) =~= buf.subrange(at, at + 2));
}

/// Packing what was read from a buffer gives back the bytes of the frame:
/// the buffer up to the packet length it declares.
pub proof fn lemma_pack_unpacked(buf: Seq<u8>)
    requires
        unpacked(buf) is Ok,
    ensures
        ({
            let frame = unpacked(buf)->Ok_0;
            packed(frame.ver, frame.op, frame.seq, frame.body) == buf.subrange(0, frame.packet_len)
        }),
{
    let frame = unpacked(buf)->Ok_0;
    let len = frame.packet_len;
    lemma_write_u32(buf, 0);
    lemma_write_u16(buf, 4);
    lemma_write_u16(buf, 6);
    lemma_write_u32(buf, 8);
    lemma_write_u32(buf, 12);
    assert(frame.body.len() + 16 == len);
    assert(packed(frame.ver, frame.op, frame.seq, frame.body) =~= buf.subrange(0, 4)
        + buf.subrange(4, 6) + buf.subrange(6, 8) + buf.subrange(8, 12) + buf.subrange(12, 16)
        + buf.subrange(16, len));
    assert(buf.subrange(0, 4) + buf.subrange(4, 6) + buf.subrange(6, 8) + buf.subrange(8, 12)
        + buf.subrange(12, 16) + buf.subrange(16, len) =~= buf.subrange(0, len));
}

/// A packed frame never reads back as another frame: `packed` is
/// one-to-one on frames within the size limit.
pub proof fn lemma_packed_injective(
    ver1: int,
    op1: int,
    seq1: int,
    body1: Seq<u8>,
    ver2: int,
    op2: int,
    seq2: int,
    body2: Seq<u8>,
)
    requires
        0 <= ver1 <= u16::MAX,
        0 <= op1 <= u32::MAX,
        0 <= seq1 <= u32::MAX,
        body1.len() <= MAX_BODY_SIZE,
        0 <= ver2 <= u16::MAX,
        0 <= op2 <= u32::MAX,
        0 <= seq2 <= u32::MAX,
        body2.len() <= MAX_BODY_SIZE,
        packed(ver1, op1, seq1, body1) == packed(ver2, op2, seq2, body2),
    ensures
        ver1 == ver2,
        op1 == op2,
        seq1 == seq2,
        body1 == body2,
{
    lemma_unpack_packed(ver1, op1, seq1, body1);
    lemma_unpack_packed(ver2, op2, seq2, body2);
}

/// A compressed body that inflates to a whole packed frame decodes to the
/// text of that inner frame's body, with one level of nesting used up.
pub proof fn lemma_nested_frame_text(
    outer: Seq<u8>,
    ver: int,
    op: int,
    seq: int,
    inner: Seq<u8>,
    fuel: nat,
)
    requires
        0 <= ver <= u16::MAX,
        0 <= op <= u32::MAX,
        0 <= seq <= u32::MAX,
        inner.len() <= MAX_BODY_SIZE,
        zlib_inflated(outer) == Some(packed(ver, op, seq, inner)),
        fuel > 0,
    ensures
        body_text(2, outer, fuel) == body_text(ver, inner, (fuel - 1) as nat),
{
    let raw = packed(ver, op, seq, inner);
    lemma_unpack_packed(ver, op, seq, inner);
    assert(raw.len() == inner.len() + 16);
    assert(unpacked(raw)->Ok_0.packet_len == inner.len() + 16);
    assert(is_nested_frame(raw));
}

/// Whether `outer` is a compressed envelope of `inner`: its version is 2
/// and its body inflates to the bytes of `inner`, a frame within the size
/// limit.
pub open spec fn is_envelope_of(outer: Frame, inner: Frame) -> bool {
    &&& outer.ver == 2
    &&& 0 <= inner.ver <= u16::MAX
    &&& 0 <= inner.op <= u32::MAX
    &&& 0 <= inner.seq <= u32::MAX
    &&& inner.body.len() <= MAX_BODY_SIZE
    &&& zlib_inflated(outer.body) == Some(packed(inner.ver, inner.op, inner.seq, inner.body))
}

/// Whether `frames` is a nest, written from the inside out: the first
/// frame is plain, and each later one is an envelope of the one before it.
pub open spec fn is_nest(frames: Seq<Frame>) -> bool {
    &&& frames.len() >= 1
    &&& frames[0].ver == 0
    &&& forall|k: int|
        1 <= k < frames.len() ==> is_envelope_of(#[trigger] frames[k], frames[k - 1])
}

/// However deep a nest is, its outermost frame decodes to the text of its
/// innermost body, as long as the levels allowed cover its depth. With the
/// `MAX_NESTING` levels of `get_body_string` that is every nest of up to 16
/// envelopes.
pub proof fn lemma_nest_text(frames: Seq<Frame>, fuel: nat)
    requires
        is_nest(frames),
        frames.len() - 1 <= fuel,
    ensures
        body_text(frames.last().ver, frames.last().body, fuel) == utf8_text(frames[0].body),
    decreases frames.len(),
{
    if frames.len() > 1 {
        let outer = frames.last();
        let inner = frames[frames.len() - 2];
        let rest = frames.drop_last();
        assert(is_envelope_of(frames[frames.len() - 1], inner));
        lemma_nested_frame_text(outer.body, inner.ver, inner.op, inner.seq, inner.body, fuel);
        assert(is_nest(rest)) by {
            assert forall|k: int| 1 <= k < rest.len() implies is_envelope_of(
                #[trigger] rest[k],
                rest[k - 1],
            ) by {
                assert(is_envelope_of(frames[k], frames[k - 1]));
            }
        }
        lemma_nest_text(rest, (fuel - 1) as nat);
    }
}

} // verus!
