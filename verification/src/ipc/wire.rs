//! What goes over the pipes.
//!
//! A message is its type (one byte), the length of its payload (four bytes,
//! least significant first) and the payload:
//!
//! - 0x01 encoded frame, agent to service: keyframe flag, codec, width,
//!   height, bitstream
//! - 0x02 input event, service to agent
//! - 0x03 heartbeat, both ways: nothing
//! - 0x04 shutdown, service to agent: nothing
//! - 0x05 force keyframe, service to agent: nothing
//! - 0x06 resolution change, service to agent: width, height
//! - 0x07 paste text, service to agent: UTF-8
//! - 0x08 clipboard, agent to service: UTF-8
//! - 0x09 viewer state, service to agent: active flag
//! - 0x0a cursor state, agent to service: visible flag, x, y, shape
//! - 0x0b cursor shape, agent to service: shape, width, height, hotspot,
//!   pixels

use crate::bytes;
use crate::media::{EncodedFrame, VideoCodec};
use crate::protocol::{CursorShape, CursorState};
use vstd::prelude::*;

verus! {

pub const MSG_ENCODED_FRAME: u8 = 0x01;

pub const MSG_INPUT: u8 = 0x02;

pub const MSG_HEARTBEAT: u8 = 0x03;

pub const MSG_SHUTDOWN: u8 = 0x04;

pub const MSG_FORCE_KEYFRAME: u8 = 0x05;

pub const MSG_RESOLUTION_CHANGE: u8 = 0x06;

pub const MSG_PASTE_TEXT: u8 = 0x07;

pub const MSG_CLIPBOARD_SYNC: u8 = 0x08;

pub const MSG_VIEWER_STATE: u8 = 0x09;

pub const MSG_CURSOR_STATE: u8 = 0x0a;

pub const MSG_CURSOR_SHAPE: u8 = 0x0b;

/// Length of a message's header.
pub const HEADER_LEN: usize = 5;

/// Why a payload cannot be read.
#[derive(Debug, Clone, Copy, PartialEq, Eq, Structural)]
pub enum WireError {
    /// The payload has only this many bytes.
    TooShort { len: usize },
    /// No codec has this number.
    UnknownCodec { code: u8 },
    /// A picture of this size is too large.
    TooLarge { width: u32, height: u32 },
    /// The pixels do not fit the size of the picture.
    WrongSize { got: usize, expected: usize },
}

/// An encoded frame with the size of its picture.
#[derive(Debug, Clone, PartialEq, Eq)]
pub struct IpcEncodedFrame {
    pub encoded: EncodedFrame,
    pub width: u32,
    pub height: u32,
}

impl IpcEncodedFrame {
    /// The same frame again.
    pub fn duplicate(&self) -> (frame: IpcEncodedFrame)
        ensures
            same_frame(frame, *self),
    {
        IpcEncodedFrame {
            encoded: self.encoded.duplicate(),
            width: self.width,
            height: self.height,
        }
    }
}

/// Two frames hold the same picture.
pub open spec fn same_frame(a: IpcEncodedFrame, b: IpcEncodedFrame) -> bool {
    &&& a.encoded.codec == b.encoded.codec
    &&& a.encoded.is_keyframe == b.encoded.is_keyframe
    &&& a.encoded.data@ == b.encoded.data@
    &&& a.width == b.width
    &&& a.height == b.height
}

/// A message on the wire.
pub open spec fn message(kind: u8, payload: Seq<u8>) -> Seq<u8> {
    seq![kind] + bytes::le32(payload.len() as u32) + payload
}

/// The number of a codec.
pub open spec fn codec_code(codec: VideoCodec) -> u8 {
    match codec {
        VideoCodec::H264 => 0,
        VideoCodec::Av1 => 1,
    }
}

/// One byte for a flag.
pub open spec fn flag(on: bool) -> u8 {
    if on {
        1
    } else {
        0
    }
}

/// The payload of an encoded frame.
pub open spec fn frame_payload(
    is_keyframe: bool,
    codec: VideoCodec,
    width: u32,
    height: u32,
    data: Seq<u8>,
) -> Seq<u8> {
    seq![flag(is_keyframe), codec_code(codec)] + bytes::le32(width) + bytes::le32(height) + data
}

/// The payload of a cursor state.
pub open spec fn cursor_state_payload(s: CursorState) -> Seq<u8> {
    seq![flag(s.visible)] + bytes::le32(bytes::bits_of(s.x)) + bytes::le32(bytes::bits_of(s.y))
        + bytes::le64(s.shape_id)
}

/// The payload of a cursor shape.
pub open spec fn cursor_shape_payload(
    shape_id: u64,
    width: u32,
    height: u32,
    hotspot_x: i32,
    hotspot_y: i32,
    rgba: Seq<u8>,
) -> Seq<u8> {
    bytes::le64(shape_id) + bytes::le32(width) + bytes::le32(height) + bytes::le32(
        bytes::bits_of(hotspot_x),
    ) + bytes::le32(bytes::bits_of(hotspot_y)) + rgba
}

/// The payload of a resolution change.
pub open spec fn resolution_payload(width: u32, height: u32) -> Seq<u8> {
    bytes::le32(width) + bytes::le32(height)
}

/// The header of a message with a payload of `len` bytes.
pub fn message_header(kind: u8, len: u32) -> (header: Vec<u8>)
    ensures
        header@ == seq![kind] + bytes::le32(len),
{
    let mut header: Vec<u8> = Vec::new();
    header.push(kind);
    bytes::push_u32(&mut header, len);
    assert(header@ =~= seq![kind] + bytes::le32(len));
    header
}

/// A whole message.
pub fn encode_message(kind: u8, payload: &[u8]) -> (out: Vec<u8>)
    requires
        payload@.len() <= u32::MAX,
    ensures
        out@ == message(kind, payload@),
{
    let mut out = message_header(kind, payload.len() as u32);
    bytes::append(&mut out, payload);
    assert(out@ =~= message(kind, payload@));
    out
}

/// The type of a message and the length of its payload.
pub fn parse_header(header: &[u8]) -> (out: (u8, u32))
    requires
        header@.len() >= HEADER_LEN,
    ensures
        out.0 == header@[0],
        out.1 == bytes::u32_at(header@, 1),
{
    (header[0], bytes::read_u32(header, 1))
}

/// The first message of what was read, and how many bytes it took. None while
/// it is not there whole.
pub fn parse_message(stream: &[u8]) -> (out: Option<(u8, Vec<u8>, usize)>)
    ensures
        match out {
            Some((kind, payload, used)) => {
                &&& stream@.len() >= HEADER_LEN
                &&& kind == stream@[0]
                &&& used == HEADER_LEN + bytes::u32_at(stream@, 1)
                &&& used <= stream@.len()
                &&& payload@ == stream@.subrange(HEADER_LEN as int, used as int)
            },
            None => stream@.len() < HEADER_LEN || stream@.len() < HEADER_LEN + bytes::u32_at(
                stream@,
                1,
            ),
        },
{
    if stream.len() < HEADER_LEN {
        return None;
    }
    let (kind, len) = parse_header(stream);
    if stream.len() - HEADER_LEN < len as usize {
        return None;
    }
    let used: usize = HEADER_LEN + len as usize;
    Some((kind, bytes::copy_range(stream, HEADER_LEN, used), used))
}

/// One byte for a flag.
pub fn flag_byte(on: bool) -> (b: u8)
    ensures
        b == flag(on),
{
    if on {
        1
    } else {
        0
    }
}

/// The payload that carries a frame.
pub fn encode_ipc_frame(frame: &EncodedFrame, width: u32, height: u32) -> (payload: Vec<u8>)
    ensures
        payload@ == frame_payload(frame.is_keyframe, frame.codec, width, height, frame.data@),
{
    let mut payload: Vec<u8> = Vec::new();
    payload.push(flag_byte(frame.is_keyframe));
    payload.push(
        match frame.codec {
            VideoCodec::H264 => 0,
            VideoCodec::Av1 => 1,
        },
    );
    bytes::push_u32(&mut payload, width);
    bytes::push_u32(&mut payload, height);
    bytes::append(&mut payload, frame.data.as_slice());
    assert(payload@ =~= frame_payload(
        frame.is_keyframe,
        frame.codec,
        width,
        height,
        frame.data@,
    ));
    payload
}

/// Why a payload carries no frame, if it does not.
pub open spec fn frame_fault(p: Seq<u8>) -> Option<WireError> {
    if p.len() < 10 {
        Some(WireError::TooShort { len: p.len() as usize })
    } else if p[1] > 1 {
        Some(WireError::UnknownCodec { code: p[1] })
    } else {
        None
    }
}

/// Why a payload carries no cursor state, if it does not.
pub open spec fn cursor_state_fault(p: Seq<u8>) -> Option<WireError> {
    if p.len() < 17 {
        Some(WireError::TooShort { len: p.len() as usize })
    } else {
        None
    }
}

/// Why a payload carries no cursor shape, if it does not.
pub open spec fn cursor_shape_fault(p: Seq<u8>) -> Option<WireError> {
    let width = bytes::u32_at(p, 8);
    let height = bytes::u32_at(p, 12);
    if p.len() < 24 {
        Some(WireError::TooShort { len: p.len() as usize })
    } else if width * height * 4 > u32::MAX {
        Some(WireError::TooLarge { width, height })
    } else if p.len() - 24 != width * height * 4 {
        Some(
            WireError::WrongSize {
                got: (p.len() - 24) as usize,
                expected: (width * height * 4) as usize,
            },
        )
    } else {
        None
    }
}

/// The frame that a payload carries.
pub fn decode_ipc_frame(payload: &[u8]) -> (out: Result<IpcEncodedFrame, WireError>)
    ensures
        match out {
            Ok(frame) => {
                &&& frame_fault(payload@) is None
                &&& frame.encoded.is_keyframe == (payload@[0] != 0)
                &&& payload@[1] == codec_code(frame.encoded.codec)
                &&& frame.width == bytes::u32_at(payload@, 2)
                &&& frame.height == bytes::u32_at(payload@, 6)
                &&& frame.encoded.data@ == payload@.skip(10)
            },
            Err(e) => frame_fault(payload@) == Some(e),
        },
{
    if payload.len() < 10 {
        return Err(WireError::TooShort { len: payload.len() });
    }
    let codec = if payload[1] == 0 {
        VideoCodec::H264
    } else if payload[1] == 1 {
        VideoCodec::Av1
    } else {
        return Err(WireError::UnknownCodec { code: payload[1] });
    };
    let width = bytes::read_u32(payload, 2);
    let height = bytes::read_u32(payload, 6);
    let data = bytes::copy_range(payload, 10, payload.len());
    assert(data@ =~= payload@.skip(10));
    Ok(
        IpcEncodedFrame {
            encoded: EncodedFrame { codec, data, is_keyframe: payload[0] != 0 },
            width,
            height,
        },
    )
}

/// The payload that carries a cursor state.
pub fn encode_cursor_state(state: &CursorState) -> (payload: Vec<u8>)
    ensures
        payload@ == cursor_state_payload(*state),
        payload@.len() == 17,
{
    let mut payload: Vec<u8> = Vec::new();
    payload.push(flag_byte(state.visible));
    bytes::push_i32(&mut payload, state.x);
    bytes::push_i32(&mut payload, state.y);
    bytes::push_u64(&mut payload, state.shape_id);
    assert(payload@ =~= cursor_state_payload(*state));
    payload
}

/// The cursor state that a payload carries.
pub fn decode_cursor_state(payload: &[u8]) -> (out: Result<CursorState, WireError>)
    ensures
        match out {
            Ok(s) => {
                &&& cursor_state_fault(payload@) is None
                &&& s.visible == (payload@[0] != 0)
                &&& s.x == bytes::signed_of(bytes::u32_at(payload@, 1))
                &&& s.y == bytes::signed_of(bytes::u32_at(payload@, 5))
                &&& s.shape_id == bytes::u64_at(payload@, 9)
            },
            Err(e) => cursor_state_fault(payload@) == Some(e),
        },
{
    if payload.len() < 17 {
        return Err(WireError::TooShort { len: payload.len() });
    }
    Ok(
        CursorState {
            visible: payload[0] != 0,
            x: bytes::from_bits(bytes::read_u32(payload, 1)),
            y: bytes::from_bits(bytes::read_u32(payload, 5)),
            shape_id: bytes::read_u64(payload, 9),
        },
    )
}

/// The payload that carries a cursor shape.
pub fn encode_cursor_shape(shape: &CursorShape) -> (payload: Vec<u8>)
    ensures
        payload@ == cursor_shape_payload(
            shape.shape_id,
            shape.width,
            shape.height,
            shape.hotspot_x,
            shape.hotspot_y,
            shape.rgba@,
        ),
        payload@.len() == 24 + shape.rgba@.len(),
{
    let mut payload: Vec<u8> = Vec::new();
    bytes::push_u64(&mut payload, shape.shape_id);
    bytes::push_u32(&mut payload, shape.width);
    bytes::push_u32(&mut payload, shape.height);
    bytes::push_i32(&mut payload, shape.hotspot_x);
    bytes::push_i32(&mut payload, shape.hotspot_y);
    bytes::append(&mut payload, shape.rgba.as_slice());
    assert(payload@ =~= cursor_shape_payload(
        shape.shape_id,
        shape.width,
        shape.height,
        shape.hotspot_x,
        shape.hotspot_y,
        shape.rgba@,
    ));
    payload
}

/// The cursor shape that a payload carries. The number of its pixels has to
/// fit its size.
pub fn decode_cursor_shape(payload: &[u8]) -> (out: Result<CursorShape, WireError>)
    ensures
        ({
            let width = bytes::u32_at(payload@, 8);
            let height = bytes::u32_at(payload@, 12);
            match out {
                Ok(shape) => {
                    &&& cursor_shape_fault(payload@) is None
                    &&& shape.shape_id == bytes::u64_at(payload@, 0)
                    &&& shape.width == width
                    &&& shape.height == height
                    &&& shape.hotspot_x == bytes::signed_of(bytes::u32_at(payload@, 16))
                    &&& shape.hotspot_y == bytes::signed_of(bytes::u32_at(payload@, 20))
                    &&& shape.rgba@ == payload@.skip(24)
                    &&& shape.rgba@.len() == width * height * 4
                    &&& width * height * 4 <= u32::MAX
                },
                Err(e) => cursor_shape_fault(payload@) == Some(e),
            }
        }),
{
    if payload.len() < 24 {
        return Err(WireError::TooShort { len: payload.len() });
    }
    let width = bytes::read_u32(payload, 8);
    let height = bytes::read_u32(payload, 12);
    let pixels = match width.checked_mul(height) {
        Some(n) => n,
        None => return Err(WireError::TooLarge { width, height }),
    };
    let expected: usize = match pixels.checked_mul(4) {
        Some(n) => n as usize,
        None => return Err(WireError::TooLarge { width, height }),
    };
    let got: usize = payload.len() - 24;
    if got != expected {
        return Err(WireError::WrongSize { got, expected });
    }
    let rgba = bytes::copy_range(payload, 24, payload.len());
    assert(rgba@ =~= payload@.skip(24));
    Ok(
        CursorShape {
            shape_id: bytes::read_u64(payload, 0),
            width,
            height,
            hotspot_x: bytes::from_bits(bytes::read_u32(payload, 16)),
            hotspot_y: bytes::from_bits(bytes::read_u32(payload, 20)),
            rgba,
        },
    )
}

/// The payload that carries a resolution change.
pub fn encode_resolution(width: u32, height: u32) -> (payload: Vec<u8>)
    ensures
        payload@ == resolution_payload(width, height),
{
    let mut payload: Vec<u8> = Vec::new();
    bytes::push_u32(&mut payload, width);
    bytes::push_u32(&mut payload, height);
    assert(payload@ =~= resolution_payload(width, height));
    payload
}

/// The resolution that a payload asks for, if it is long enough.
pub fn decode_resolution(payload: &[u8]) -> (size: Option<(u32, u32)>)
    ensures
        size == if payload@.len() >= 8 {
            Some((bytes::u32_at(payload@, 0), bytes::u32_at(payload@, 4)))
        } else {
            None
        },
{
    if payload.len() < 8 {
        return None;
    }
    Some((bytes::read_u32(payload, 0), bytes::read_u32(payload, 4)))
}

/// `String::from_utf8` gives the text exactly if the bytes are UTF-8, and its
/// characters are then those that the bytes encode.
#[verifier::external_body]
pub(crate) fn utf8_text(data: Vec<u8>) -> (out: Option<String>)
    ensures
        out is Some <==> vstd::utf8::valid_utf8(data@),
        out matches Some(text) ==> text@ == vstd::utf8::decode_utf8(data@),
{
    String::from_utf8(data).ok()
}

/// The bytes of a text.
pub fn text_bytes(text: &str) -> (data: Vec<u8>)
    ensures
        data@ == vstd::utf8::encode_utf8(text@),
{
    bytes::copy_all(text.as_bytes())
}

/// A message is read back from a stream as it was written, whatever follows
/// it, and what follows starts where it ends.
pub proof fn law_message_round_trip(kind: u8, payload: Seq<u8>, rest: Seq<u8>)
    requires
        payload.len() <= u32::MAX,
    ensures
        ({
            let stream = message(kind, payload) + rest;
            let used = HEADER_LEN + bytes::u32_at(stream, 1);
            &&& stream.len() >= used
            &&& stream[0] == kind
            &&& used == message(kind, payload).len()
            &&& stream.subrange(HEADER_LEN as int, used) == payload
            &&& stream.skip(used) == rest
        }),
{
    let stream = message(kind, payload) + rest;
    assert(stream.subrange(1, 5) =~= bytes::le32(payload.len() as u32));
    bytes::lemma_u32_at(stream, 1, payload.len() as u32);
    assert(stream.subrange(5, 5 + payload.len() as int) =~= payload);
    assert(stream.skip(5 + payload.len() as int) =~= rest);
}

/// A frame is decoded as it was encoded.
pub proof fn law_frame_round_trip(
    is_keyframe: bool,
    codec: VideoCodec,
    width: u32,
    height: u32,
    data: Seq<u8>,
)
    ensures
        ({
            let p = frame_payload(is_keyframe, codec, width, height, data);
            &&& p.len() >= 10
            &&& (p[0] != 0) == is_keyframe
            &&& p[1] == codec_code(codec)
            &&& p[1] <= 1
            &&& bytes::u32_at(p, 2) == width
            &&& bytes::u32_at(p, 6) == height
            &&& p.skip(10) == data
        }),
{
    let p = frame_payload(is_keyframe, codec, width, height, data);
    assert(p.subrange(2, 6) =~= bytes::le32(width));
    assert(p.subrange(6, 10) =~= bytes::le32(height));
    bytes::lemma_u32_at(p, 2, width);
    bytes::lemma_u32_at(p, 6, height);
    assert(p.skip(10) =~= data);
}

/// A cursor state is decoded as it was encoded.
pub proof fn law_cursor_state_round_trip(s: CursorState)
    ensures
        ({
            let p = cursor_state_payload(s);
            &&& p.len() == 17
            &&& s == (CursorState {
                visible: p[0] != 0,
                x: bytes::signed_of(bytes::u32_at(p, 1)),
                y: bytes::signed_of(bytes::u32_at(p, 5)),
                shape_id: bytes::u64_at(p, 9),
            })
        }),
{
    let p = cursor_state_payload(s);
    assert(p.subrange(1, 5) =~= bytes::le32(bytes::bits_of(s.x)));
    assert(p.subrange(5, 9) =~= bytes::le32(bytes::bits_of(s.y)));
    assert(p.subrange(9, 17) =~= bytes::le64(s.shape_id));
    bytes::lemma_u32_at(p, 1, bytes::bits_of(s.x));
    bytes::lemma_u32_at(p, 5, bytes::bits_of(s.y));
    bytes::lemma_u64_at(p, 9, s.shape_id);
    bytes::lemma_bits_round_trip(s.x, 0);
    bytes::lemma_bits_round_trip(s.y, 0);
}

/// A cursor shape whose pixels fit its size is decoded as it was encoded.
pub proof fn law_cursor_shape_round_trip(shape: CursorShape)
    requires
        shape.rgba@.len() == shape.width * shape.height * 4,
        shape.width * shape.height * 4 <= u32::MAX,
    ensures
        ({
            let p = cursor_shape_payload(
                shape.shape_id,
                shape.width,
                shape.height,
                shape.hotspot_x,
                shape.hotspot_y,
                shape.rgba@,
            );
            &&& p.len() == 24 + shape.rgba@.len()
            &&& bytes::u64_at(p, 0) == shape.shape_id
            &&& bytes::u32_at(p, 8) == shape.width
            &&& bytes::u32_at(p, 12) == shape.height
            &&& bytes::signed_of(bytes::u32_at(p, 16)) == shape.hotspot_x
            &&& bytes::signed_of(bytes::u32_at(p, 20)) == shape.hotspot_y
            &&& p.skip(24) == shape.rgba@
            &&& p.len() - 24 == bytes::u32_at(p, 8) * bytes::u32_at(p, 12) * 4
        }),
{
    let p = cursor_shape_payload(
        shape.shape_id,
        shape.width,
        shape.height,
        shape.hotspot_x,
        shape.hotspot_y,
        shape.rgba@,
    );
    assert(p.subrange(0, 8) =~= bytes::le64(shape.shape_id));
    assert(p.subrange(8, 12) =~= bytes::le32(shape.width));
    assert(p.subrange(12, 16) =~= bytes::le32(shape.height));
    assert(p.subrange(16, 20) =~= bytes::le32(bytes::bits_of(shape.hotspot_x)));
    assert(p.subrange(20, 24) =~= bytes::le32(bytes::bits_of(shape.hotspot_y)));
    bytes::lemma_u64_at(p, 0, shape.shape_id);
    bytes::lemma_u32_at(p, 8, shape.width);
    bytes::lemma_u32_at(p, 12, shape.height);
    bytes::lemma_u32_at(p, 16, bytes::bits_of(shape.hotspot_x));
    bytes::lemma_u32_at(p, 20, bytes::bits_of(shape.hotspot_y));
    bytes::lemma_bits_round_trip(shape.hotspot_x, 0);
    bytes::lemma_bits_round_trip(shape.hotspot_y, 0);
    assert(p.skip(24) =~= shape.rgba@);
}

/// A payload that a cursor shape was decoded from is what the shape is encoded to again.
pub proof fn law_cursor_shape_encodes_again(p: Seq<u8>)
    requires
        cursor_shape_fault(p) is None,
    ensures
        cursor_shape_payload(
            bytes::u64_at(p, 0),
            bytes::u32_at(p, 8),
            bytes::u32_at(p, 12),
            bytes::signed_of(bytes::u32_at(p, 16)),
            bytes::signed_of(bytes::u32_at(p, 20)),
            p.skip(24),
        ) == p,
{
    bytes::lemma_le64_of(p, 0);
    bytes::lemma_le32_of(p, 8);
    bytes::lemma_le32_of(p, 12);
    bytes::lemma_le32_of(p, 16);
    bytes::lemma_le32_of(p, 20);
    bytes::lemma_bits_round_trip(0, bytes::u32_at(p, 16));
    bytes::lemma_bits_round_trip(0, bytes::u32_at(p, 20));
    assert(p =~= p.subrange(0, 8) + p.subrange(8, 12) + p.subrange(12, 16) + p.subrange(16, 20)
        + p.subrange(20, 24) + p.skip(24));
}

/// A resolution is decoded as it was encoded.
pub proof fn law_resolution_round_trip(width: u32, height: u32)
    ensures
        ({
            let p = resolution_payload(width, height);
            &&& p.len() == 8
            &&& bytes::u32_at(p, 0) == width
            &&& bytes::u32_at(p, 4) == height
        }),
{
    let p = resolution_payload(width, height);
    assert(p.subrange(0, 4) =~= bytes::le32(width));
    assert(p.subrange(4, 8) =~= bytes::le32(height));
    bytes::lemma_u32_at(p, 0, width);
    bytes::lemma_u32_at(p, 4, height);
}

/// A text is read back from its bytes.
pub proof fn law_text_round_trip(text: Seq<char>)
    ensures
        vstd::utf8::valid_utf8(vstd::utf8::encode_utf8(text)),
        vstd::utf8::decode_utf8(vstd::utf8::encode_utf8(text)) == text,
{
    vstd::utf8::encode_utf8_valid_utf8(text);
    vstd::utf8::encode_utf8_decode_utf8(text);
}

/// Every kind of message has a number of its own, and they run from one to eleven.
pub proof fn law_message_numbers()
    ensures
        MSG_ENCODED_FRAME == 1,
        MSG_INPUT == 2,
        MSG_HEARTBEAT == 3,
        MSG_SHUTDOWN == 4,
        MSG_FORCE_KEYFRAME == 5,
        MSG_RESOLUTION_CHANGE == 6,
        MSG_PASTE_TEXT == 7,
        MSG_CLIPBOARD_SYNC == 8,
        MSG_VIEWER_STATE == 9,
        MSG_CURSOR_STATE == 10,
        MSG_CURSOR_SHAPE == 11,
        HEADER_LEN == 5,
{
}

/// A written message holds its number, the length of the payload with the least
/// significant byte first, and then the payload; its header is its beginning.
pub proof fn law_message_layout(kind: u8, payload: &[u8], out: Vec<u8>, header: Vec<u8>)
    requires
        payload@.len() <= u32::MAX,
        call_ensures(encode_message, (kind, payload), out),
        call_ensures(message_header, (kind, payload@.len() as u32), header),
    ensures
        out@.len() == 5 + payload@.len(),
        out@[0] == kind,
        payload@.len() == out@[1] + 0x100 * out@[2] + 0x1_0000 * out@[3] + 0x100_0000 * out@[4],
        out@.skip(5) == payload@,
        header@ == out@.take(5),
{
    assert(out@.skip(5) =~= payload@);
    assert(header@ =~= out@.take(5));
    assert(out@.subrange(1, 5) =~= bytes::le32(payload@.len() as u32));
    bytes::lemma_u32_at(out@, 1, payload@.len() as u32);
}

/// What is read of a stream: nothing while five bytes and the payload that they announce
/// are not there, and otherwise that payload, under the number that comes first.
pub proof fn law_stream_is_read_in_whole_messages(
    stream: &[u8],
    out: Option<(u8, Vec<u8>, usize)>,
    header: (u8, u32),
)
    requires
        call_ensures(parse_message, (stream,), out),
        stream@.len() >= 5,
        call_ensures(parse_header, (stream,), header),
    ensures
        header.0 == stream@[0],
        header.1 == stream@[1] + 0x100 * stream@[2] + 0x1_0000 * stream@[3] + 0x100_0000
            * stream@[4],
        out is Some <==> stream@.len() >= 5 + header.1,
        out matches Some((kind, payload, used)) ==> kind == header.0 && payload@.len() == header.1
            && used == 5 + header.1 && payload@ == stream@.subrange(5, used as int),
{
}

/// A frame that is encoded is decoded to the same frame, by the functions that do it.
pub proof fn law_frame_comes_back(
    frame: EncodedFrame,
    width: u32,
    height: u32,
    payload: Vec<u8>,
    p: &[u8],
    out: Result<IpcEncodedFrame, WireError>,
)
    requires
        call_ensures(encode_ipc_frame, (&frame, width, height), payload),
        p@ == payload@,
        call_ensures(decode_ipc_frame, (p,), out),
    ensures
        p@.len() == 10 + frame.data@.len(),
        p@[0] == if frame.is_keyframe {
            1u8
        } else {
            0u8
        },
        p@[1] == if frame.codec is H264 {
            0u8
        } else {
            1u8
        },
        p@.skip(10) == frame.data@,
        out is Ok,
        out->Ok_0.encoded.is_keyframe == frame.is_keyframe,
        out->Ok_0.encoded.codec == frame.codec,
        out->Ok_0.encoded.data@ == frame.data@,
        out->Ok_0.width == width,
        out->Ok_0.height == height,
{
    law_frame_round_trip(frame.is_keyframe, frame.codec, width, height, frame.data@);
}

/// A payload is refused as a frame exactly if it is shorter than ten bytes or names no
/// codec; the size is read from the third byte on, width first.
pub proof fn law_frame_fields_stand_in_place(p: &[u8], out: Result<IpcEncodedFrame, WireError>)
    requires
        call_ensures(decode_ipc_frame, (p,), out),
    ensures
        out is Ok <==> p@.len() >= 10 && p@[1] <= 1,
        p@.len() < 10 ==> out == Err::<IpcEncodedFrame, _>(
            WireError::TooShort { len: p@.len() as usize },
        ),
        p@.len() >= 10 && p@[1] > 1 ==> out == Err::<IpcEncodedFrame, _>(
            WireError::UnknownCodec { code: p@[1] },
        ),
        out matches Ok(f) ==> {
            &&& f.encoded.is_keyframe <==> p@[0] != 0
            &&& f.encoded.codec is H264 <==> p@[1] == 0
            &&& f.width == p@[2] + 0x100 * p@[3] + 0x1_0000 * p@[4] + 0x100_0000 * p@[5]
            &&& f.height == p@[6] + 0x100 * p@[7] + 0x1_0000 * p@[8] + 0x100_0000 * p@[9]
            &&& f.encoded.data@ == p@.skip(10)
        },
{
}

/// A cursor that is encoded is decoded to the same cursor, and only payloads of less than
/// seventeen bytes are refused.
pub proof fn law_cursor_comes_back(
    state: CursorState,
    payload: Vec<u8>,
    p: &[u8],
    q: &[u8],
    out: Result<CursorState, WireError>,
    other: Result<CursorState, WireError>,
)
    requires
        call_ensures(encode_cursor_state, (&state,), payload),
        p@ == payload@,
        call_ensures(decode_cursor_state, (p,), out),
        call_ensures(decode_cursor_state, (q,), other),
    ensures
        p@.len() == 17,
        p@[0] == 1 <==> state.visible,
        p@[0] <= 1,
        out == Ok::<CursorState, WireError>(state),
        other is Ok <==> q@.len() >= 17,
{
    law_cursor_state_round_trip(state);
}

/// A cursor's shape that is encoded is decoded to the same shape where its pixels fit its
/// size, four bytes each, and refused where they do not.
pub proof fn law_shape_comes_back(
    shape: CursorShape,
    payload: Vec<u8>,
    p: &[u8],
    out: Result<CursorShape, WireError>,
)
    requires
        shape.width * shape.height * 4 <= u32::MAX,
        call_ensures(encode_cursor_shape, (&shape,), payload),
        p@ == payload@,
        call_ensures(decode_cursor_shape, (p,), out),
    ensures
        out is Ok <==> shape.rgba@.len() == shape.width * shape.height * 4,
        out matches Ok(back) ==> {
            &&& back.shape_id == shape.shape_id
            &&& back.width == shape.width
            &&& back.height == shape.height
            &&& back.hotspot_x == shape.hotspot_x
            &&& back.hotspot_y == shape.hotspot_y
            &&& back.rgba@ == shape.rgba@
        },
{
    assert(p@.subrange(8, 12) =~= bytes::le32(shape.width));
    assert(p@.subrange(12, 16) =~= bytes::le32(shape.height));
    bytes::lemma_u32_at(p@, 8, shape.width);
    bytes::lemma_u32_at(p@, 12, shape.height);
    if shape.rgba@.len() == shape.width * shape.height * 4 {
        law_cursor_shape_round_trip(shape);
    }
}

/// A size that is encoded is decoded to the same size, and only payloads of less than
/// eight bytes are refused.
pub proof fn law_size_comes_back(
    width: u32,
    height: u32,
    payload: Vec<u8>,
    p: &[u8],
    q: &[u8],
    out: Option<(u32, u32)>,
    other: Option<(u32, u32)>,
)
    requires
        call_ensures(encode_resolution, (width, height), payload),
        p@ == payload@,
        call_ensures(decode_resolution, (p,), out),
        call_ensures(decode_resolution, (q,), other),
    ensures
        p@.len() == 8,
        out == Some((width, height)),
        other is Some <==> q@.len() >= 8,
{
    law_resolution_round_trip(width, height);
}

} // verus!
