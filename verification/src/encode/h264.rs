//! H.264 on the processor.

use crate::bytes;
use crate::media::{EncodedFrame, VideoCodec};
use vstd::prelude::*;

verus! {

/// OpenH264's encoder.
#[verifier::external_type_specification]
#[verifier::external_body]
pub struct ExEncoder(openh264::encoder::Encoder);

/// OpenH264's error.
#[verifier::external_type_specification]
#[verifier::external_body]
pub struct ExH264Error(openh264::Error);

/// What kind of frame an encoder made.
#[derive(Debug, Clone, Copy, PartialEq, Eq, Structural)]
pub enum FrameKind {
    Invalid,
    Idr,
    I,
    P,
    Skip,
    IpMixed,
}

/// Why the encoder could not be made or could not encode.
#[derive(Debug)]
pub enum H264Error {
    /// The encoder could not be created.
    Create(openh264::Error),
    /// The frame could not be encoded.
    Encode(openh264::Error),
}

/// The frame rate in hertz and the bit rate in bits per second that an encoder
/// was made with.
pub uninterp spec fn encoder_settings(encoder: openh264::encoder::Encoder) -> (u16, u32);

/// The picture that an encoder encoded last: its planes one after the other, its
/// width and its height.
pub uninterp spec fn last_picture(encoder: openh264::encoder::Encoder) -> (Seq<u8>, usize, usize);

/// What an encoder made of the picture that it encoded last: its kind and its bytes.
pub uninterp spec fn last_output(encoder: openh264::encoder::Encoder) -> (FrameKind, Seq<u8>);

/// An encoder was asked for a keyframe and has encoded nothing since.
pub uninterp spec fn intra_asked(encoder: openh264::encoder::Encoder) -> bool;

/// Where a NAL unit lies in an Annex-B byte stream.
#[derive(Debug, Clone, Copy, PartialEq, Eq, Structural)]
pub struct AnnexBNalRange {
    /// First byte of the start code.
    pub start_code_start: usize,
    /// First byte after the start code: the NAL header.
    pub nal_start: usize,
}

/// A NAL header stands at `n`: the three bytes before it are a start code.
pub open spec fn is_nal_start(data: Seq<u8>, n: int) -> bool {
    3 <= n < data.len() && data[n - 3] == 0 && data[n - 2] == 0 && data[n - 1] == 1
}

/// Where the start code of the NAL unit at `n` begins. A zero byte before the
/// three bytes belongs to it.
pub open spec fn start_code_of(data: Seq<u8>, n: int) -> int {
    if n >= 4 && data[n - 4] == 0 {
        n - 4
    } else {
        n - 3
    }
}

/// The type of the NAL unit at `n`.
pub open spec fn nal_type(data: Seq<u8>, n: int) -> u8 {
    data[n] & 0x1f
}

/// The stream holds a NAL unit of type `t`.
pub open spec fn has_nal(data: Seq<u8>, t: u8) -> bool {
    exists|n: int| #[trigger] is_nal_start(data, n) && nal_type(data, n) == t
}

/// The stream holds both parameter sets: a sequence parameter set and a
/// picture parameter set.
pub open spec fn has_parameter_sets(data: Seq<u8>) -> bool {
    has_nal(data, 7) && has_nal(data, 8)
}

/// `n` is the first NAL unit of type `t` of the stream.
pub open spec fn is_first_nal(data: Seq<u8>, t: u8, n: int) -> bool {
    &&& is_nal_start(data, n)
    &&& nal_type(data, n) == t
    &&& forall|m: int| #[trigger] is_nal_start(data, m) && m < n ==> nal_type(data, m) != t
}

/// What stands before the start code of the first IDR picture.
pub open spec fn before_first_idr(data: Seq<u8>) -> Seq<u8> {
    let n = choose|n: int| is_first_nal(data, 5, n);
    data.subrange(0, start_code_of(data, n))
}

/// The cached parameter sets after the keyframe `data`: an empty cache takes
/// what stands before the first IDR picture of a complete keyframe.
pub open spec fn next_cache(cache: Seq<u8>, data: Seq<u8>) -> Seq<u8> {
    if has_parameter_sets(data) && cache.len() == 0 && has_nal(data, 5) {
        before_first_idr(data)
    } else {
        cache
    }
}

/// The keyframe that is sent for `data`: the cached parameter sets go before
/// one that lacks them.
pub open spec fn complete_keyframe(cache: Seq<u8>, data: Seq<u8>) -> Seq<u8> {
    if has_parameter_sets(data) {
        data
    } else {
        cache + data
    }
}

/// The frame kinds that decode on their own.
pub open spec fn is_key_kind(kind: FrameKind) -> bool {
    kind == FrameKind::Idr || kind == FrameKind::I
}

/// A start code of length `len` stands at `i`, with a byte after its first
/// three.
pub open spec fn start_code_at(data: Seq<u8>, i: int, len: int) -> bool {
    &&& 0 <= i
    &&& i + 3 < data.len()
    &&& ({
        ||| len == 4 && data[i] == 0 && data[i + 1] == 0 && data[i + 2] == 0 && data[i + 3] == 1
        ||| len == 3 && data[i] == 0 && data[i + 1] == 0 && data[i + 2] == 1
    })
}

/// The first start code at or after `from`: where it begins and how long it
/// is. One of three bytes counts only if a byte follows it.
pub fn find_annexb_start(data: &[u8], from: usize) -> (found: Option<(usize, usize)>)
    ensures
        match found {
            Some((i, len)) => {
                &&& from <= i
                &&& start_code_at(data@, i as int, len as int)
                &&& forall|j: int, l: int| from <= j < i ==> !start_code_at(data@, j, l)
            },
            None => forall|j: int, l: int| from <= j ==> !start_code_at(data@, j, l),
        },
        (exists|l: int| start_code_at(data@, from as int, l)) ==> (found matches Some((i, _)) && i
            == from),
{
    let mut i: usize = from;
    while i < data.len() && data.len() - i > 3
        invariant
            from <= i,
            forall|j: int, l: int| from <= j < i ==> !start_code_at(data@, j, l),
        decreases data@.len() - i,
    {
        if data[i] == 0 && data[i + 1] == 0 {
            if data[i + 2] == 0 && data[i + 3] == 1 {
                return Some((i, 4));
            }
            if data[i + 2] == 1 {
                return Some((i, 3));
            }
        }
        i += 1;
    }
    None
}

/// Every NAL unit of the stream is in the list.
pub open spec fn lists_every_unit(data: Seq<u8>, ranges: Seq<AnnexBNalRange>) -> bool {
    forall|n: int| #[trigger]
        is_nal_start(data, n) ==> exists|k: int|
            0 <= k < ranges.len() && (#[trigger] ranges[k]).nal_start == n
}

/// The NAL units of an Annex-B byte stream, in order.
pub fn annexb_nal_ranges(data: &[u8]) -> (ranges: Vec<AnnexBNalRange>)
    ensures
        forall|k: int|
            #![trigger ranges@[k]]
            0 <= k < ranges@.len() ==> {
                &&& is_nal_start(data@, ranges@[k].nal_start as int)
                &&& ranges@[k].start_code_start == start_code_of(
                    data@,
                    ranges@[k].nal_start as int,
                )
            },
        forall|k: int, l: int|
            0 <= k < l < ranges@.len() ==> ranges@[k].nal_start < ranges@[l].nal_start,
        forall|n: int| #[trigger]
            is_nal_start(data@, n) ==> exists|k: int|
                0 <= k < ranges@.len() && (#[trigger] ranges@[k]).nal_start == n,
        lists_every_unit(data@, ranges@),
{
    let mut out: Vec<AnnexBNalRange> = Vec::new();
    let mut search_from: usize = 0;
    loop
        invariant_except_break
            search_from <= data@.len(),
            search_from == 0 || data@[search_from - 1] == 1,
            forall|n: int| #[trigger]
                is_nal_start(data@, n) && n <= search_from ==> exists|k: int|
                    0 <= k < out@.len() && (#[trigger] out@[k]).nal_start == n,
        invariant
            forall|k: int|
                #![trigger out@[k]]
                0 <= k < out@.len() ==> {
                    &&& is_nal_start(data@, out@[k].nal_start as int)
                    &&& out@[k].nal_start <= search_from
                    &&& out@[k].start_code_start == start_code_of(data@, out@[k].nal_start as int)
                },
            forall|k: int, l: int|
                0 <= k < l < out@.len() ==> out@[k].nal_start < out@[l].nal_start,
        ensures
            forall|n: int| #[trigger]
                is_nal_start(data@, n) ==> exists|k: int|
                    0 <= k < out@.len() && (#[trigger] out@[k]).nal_start == n,
        decreases data@.len() - search_from,
    {
        let (start, len) = match find_annexb_start(data, search_from) {
            Some(found) => found,
            None => {
                proof {
                    assert forall|n: int| #[trigger] is_nal_start(data@, n) implies n
                        <= search_from by {
                        if n > search_from {
                            lemma_no_overlap(data@, search_from as int, n);
                            assert(start_code_at(data@, n - 3, 3));
                        }
                    }
                }
                break;
            },
        };
        let total: usize = data.len();
        assert(start + len <= total);
        let nal_start: usize = start + len;
        let ghost before = out@;
        proof {
            assert forall|n: int| #[trigger] is_nal_start(data@, n) && n < nal_start implies n
                <= search_from by {
                if n > search_from {
                    lemma_no_overlap(data@, search_from as int, n);
                    assert(start_code_at(data@, n - 3, 3));
                }
            }
        }
        if nal_start < data.len() {
            out.push(AnnexBNalRange { start_code_start: start, nal_start });
            proof {
                assert(is_nal_start(data@, nal_start as int));
                if start_code_of(data@, nal_start as int) != start {
                    assert(start_code_at(data@, nal_start - 4, 4));
                }
            }
        }
        proof {
            assert forall|n: int| #[trigger] is_nal_start(data@, n) && n <= nal_start implies exists|
                k: int,
            |
                0 <= k < out@.len() && (#[trigger] out@[k]).nal_start == n by {
                if n == nal_start {
                    assert(out@[out@.len() - 1].nal_start == n);
                } else {
                    let k = choose|k: int|
                        0 <= k < before.len() && (#[trigger] before[k]).nal_start == n;
                    assert(out@[k] == before[k]);
                }
            }
        }
        search_from = nal_start;
    }
    out
}

/// A start code cannot begin before the end of the one before it.
proof fn lemma_no_overlap(data: Seq<u8>, from: int, n: int)
    requires
        is_nal_start(data, n),
        0 <= from < n,
        from == 0 || data[from - 1] == 1,
    ensures
        n - 3 >= from,
{
}

/// Make a keyframe decodable on its own.
///
/// A viewer can join at any keyframe, so one without parameter sets gets the
/// cached ones in front. The first complete keyframe fills the cache.
pub fn ensure_keyframe_has_sps_pps(cached_sps_pps: &mut Vec<u8>, data: &mut Vec<u8>)
    ensures
        final(cached_sps_pps)@ == next_cache(old(cached_sps_pps)@, old(data)@),
        final(data)@ == complete_keyframe(old(cached_sps_pps)@, old(data)@),
{
    let mut has_sps = false;
    let mut has_pps = false;
    let mut first_idr: Option<AnnexBNalRange> = None;
    let ranges = annexb_nal_ranges(data.as_slice());
    let ghost d = data@;
    let mut k: usize = 0;
    while k < ranges.len()
        invariant
            k <= ranges@.len(),
            data@ == d,
            forall|i: int|
                #![trigger ranges@[i]]
                0 <= i < ranges@.len() ==> {
                    &&& is_nal_start(d, ranges@[i].nal_start as int)
                    &&& ranges@[i].start_code_start == start_code_of(d, ranges@[i].nal_start as int)
                },
            forall|i: int, l: int|
                0 <= i < l < ranges@.len() ==> ranges@[i].nal_start < ranges@[l].nal_start,
            has_sps == exists|i: int|
                0 <= i < k && nal_type(d, (#[trigger] ranges@[i]).nal_start as int) == 7,
            has_pps == exists|i: int|
                0 <= i < k && nal_type(d, (#[trigger] ranges@[i]).nal_start as int) == 8,
            match first_idr {
                Some(r) => {
                    &&& nal_type(d, r.nal_start as int) == 5
                    &&& exists|i: int|
                        0 <= i < k && #[trigger] ranges@[i] == r && forall|j: int|
                            0 <= j < i ==> nal_type(d, (#[trigger] ranges@[j]).nal_start as int)
                                != 5
                },
                None => forall|i: int|
                    0 <= i < k ==> nal_type(d, (#[trigger] ranges@[i]).nal_start as int) != 5,
            },
        decreases ranges@.len() - k,
    {
        let range = ranges[k];
        assert(is_nal_start(d, ranges@[k as int].nal_start as int));
        let kind: u8 = data[range.nal_start] & 0x1f;
        if kind == 5 && first_idr.is_none() {
            first_idr = Some(range);
        } else if kind == 7 {
            has_sps = true;
        } else if kind == 8 {
            has_pps = true;
        }
        k += 1;
        assert(ranges@[k - 1] == range);
    }
    proof {
        assert forall|t: u8| has_nal(d, t) == exists|i: int|
            0 <= i < k && nal_type(d, (#[trigger] ranges@[i]).nal_start as int) == t by {
            if has_nal(d, t) {
                let n = choose|n: int| #[trigger] is_nal_start(d, n) && nal_type(d, n) == t;
                let i = choose|i: int|
                    0 <= i < ranges@.len() && (#[trigger] ranges@[i]).nal_start == n;
                assert(nal_type(d, ranges@[i].nal_start as int) == t);
            }
        }
        assert(has_nal(d, 7) == has_sps);
        assert(has_nal(d, 8) == has_pps);
        assert(has_nal(d, 5) == first_idr is Some);
    }
    if has_sps && has_pps {
        if cached_sps_pps.is_empty() {
            if let Some(idr) = first_idr {
                proof {
                    let i = choose|i: int|
                        0 <= i < k && #[trigger] ranges@[i] == idr && forall|j: int|
                            0 <= j < i ==> nal_type(d, (#[trigger] ranges@[j]).nal_start as int)
                                != 5;
                    assert forall|m: int| #[trigger] is_nal_start(d, m) && m
                        < idr.nal_start implies nal_type(d, m) != 5 by {
                        let j = choose|j: int|
                            0 <= j < ranges@.len() && (#[trigger] ranges@[j]).nal_start == m;
                        assert(j < i);
                    }
                    assert(is_first_nal(d, 5, idr.nal_start as int));
                    lemma_first_nal_unique(d, 5, idr.nal_start as int);
                }
                bytes::append(
                    cached_sps_pps,
                    vstd::slice::slice_subrange(data.as_slice(), 0, idr.start_code_start),
                );
                assert(cached_sps_pps@ =~= before_first_idr(d));
            }
        }
    } else if !cached_sps_pps.is_empty() {
        let mut with_sps: Vec<u8> = Vec::new();
        bytes::append(&mut with_sps, cached_sps_pps.as_slice());
        bytes::append(&mut with_sps, data.as_slice());
        assert(with_sps@ =~= cached_sps_pps@ + d);
        *data = with_sps;
    } else {
        assert(cached_sps_pps@ + d =~= d);
    }
}

/// There is one first NAL unit of a type at most.
proof fn lemma_first_nal_unique(data: Seq<u8>, t: u8, n: int)
    requires
        is_first_nal(data, t, n),
    ensures
        forall|m: int| is_first_nal(data, t, m) ==> m == n,
{
}

/// Creates an encoder: `openh264::encoder::Encoder::with_api_config` on the
/// bundled library, with these rates, rate control by bit rate, and frames
/// skipped to keep to it. The encoder remembers the two rates. Whether it can
/// be made is not a matter of the arguments.
#[verifier::external_body]
fn create_encoder(fps: u16, bps: u32) -> (out: Result<openh264::encoder::Encoder, openh264::Error>)
    ensures
        out is Ok ==> encoder_settings(out->Ok_0) == (fps, bps),
{
    let config = openh264::encoder::EncoderConfig::new()
        .max_frame_rate(fps.into())
        .set_bitrate_bps(bps)
        .rate_control_mode(openh264::encoder::RateControlMode::Bitrate)
        .enable_skip_frame(true);
    let api = openh264::OpenH264API::from_source();
    openh264::encoder::Encoder::with_api_config(api, config)
}

/// OpenH264 encodes pictures of this size: 3840 by 2160 at most, either way up.
pub open spec fn is_encodable(width: int, height: int) -> bool {
    if width >= height {
        width <= 3840 && height <= 2160
    } else {
        height <= 3840 && width <= 2160
    }
}

/// What an encoder that was asked for a keyframe may make: one, or nothing yet.
pub open spec fn answers_request(kind: FrameKind) -> bool {
    is_key_kind(kind) || kind == FrameKind::Skip || kind == FrameKind::Invalid
}

/// Encodes one picture with `openh264::encoder::Encoder::encode`. A picture that
/// is too large is refused. After a call of `force_intra_frame` what is encoded
/// next is an intra frame; the encoder may skip the picture. The kind and the bytes
/// that come out are those that the encoder holds after the call; which they are
/// depends on the pictures before, and is not said. The rates that the encoder was
/// made with stay.
#[verifier::external_body]
fn encode_picture(
    encoder: &mut openh264::encoder::Encoder,
    yuv: Vec<u8>,
    width: usize,
    height: usize,
) -> (out: Result<(FrameKind, Vec<u8>), openh264::Error>)
    requires
        width % 2 == 0,
        height % 2 == 0,
        width <= 0x7fff_ffff,
        height <= 0x7fff_ffff,
        3 * (width * height) <= usize::MAX,
        yuv@.len() == (3 * (width * height)) / 2,
    ensures
        encoder_settings(*final(encoder)) == encoder_settings(*old(encoder)),
        !is_encodable(width as int, height as int) ==> out is Err,
        out is Ok ==> last_picture(*final(encoder)) == (yuv@, width, height),
        out is Ok ==> last_output(*final(encoder)) == (out->Ok_0.0, out->Ok_0.1@),
        out is Ok && intra_asked(*old(encoder)) ==> answers_request(out->Ok_0.0),
{
    let bits = encoder.encode(&openh264::formats::YUVBuffer::from_vec(yuv, width, height))?;
    let kind = match bits.frame_type() {
        openh264::encoder::FrameType::Invalid => FrameKind::Invalid,
        openh264::encoder::FrameType::IDR => FrameKind::Idr,
        openh264::encoder::FrameType::I => FrameKind::I,
        openh264::encoder::FrameType::P => FrameKind::P,
        openh264::encoder::FrameType::Skip => FrameKind::Skip,
        openh264::encoder::FrameType::IPMixed => FrameKind::IpMixed,
    };
    Ok((kind, bits.to_vec()))
}

/// Asks `openh264::encoder::Encoder::force_intra_frame` for a keyframe. The
/// rates that the encoder was made with stay.
#[verifier::external_body]
fn force_intra(encoder: &mut openh264::encoder::Encoder)
    ensures
        intra_asked(*final(encoder)),
        encoder_settings(*final(encoder)) == encoder_settings(*old(encoder)),
{
    encoder.force_intra_frame()
}

/// Turn what the encoder made into a frame to send, completing keyframes from
/// the cached parameter sets.
pub fn finish_frame(
    cached_sps_pps: &mut Vec<u8>,
    kind: FrameKind,
    bitstream: Vec<u8>,
) -> (frame: EncodedFrame)
    ensures
        frame.codec == VideoCodec::H264,
        frame.is_keyframe == is_key_kind(kind),
        is_key_kind(kind) ==> {
            &&& frame.data@ == complete_keyframe(old(cached_sps_pps)@, bitstream@)
            &&& final(cached_sps_pps)@ == next_cache(old(cached_sps_pps)@, bitstream@)
        },
        !is_key_kind(kind) ==> {
            &&& frame.data@ == bitstream@
            &&& final(cached_sps_pps)@ == old(cached_sps_pps)@
        },
{
    let is_keyframe = match kind {
        FrameKind::Idr | FrameKind::I => true,
        _ => false,
    };
    let mut data = bitstream;
    if is_keyframe {
        ensure_keyframe_has_sps_pps(cached_sps_pps, &mut data);
    }
    EncodedFrame { codec: VideoCodec::H264, data, is_keyframe }
}

/// The three planes of a picture, one after the other.
pub fn pack_planes(y: &[u8], u: &[u8], v: &[u8]) -> (packed: Vec<u8>)
    ensures
        packed@ == y@ + u@ + v@,
{
    let mut packed: Vec<u8> = Vec::new();
    bytes::append(&mut packed, y);
    bytes::append(&mut packed, u);
    bytes::append(&mut packed, v);
    assert(packed@ =~= y@ + u@ + v@);
    packed
}

/// An H.264 encoder on the processor.
pub struct OpenH264Encoder {
    encoder: openh264::encoder::Encoder,
    width: u32,
    height: u32,
    fps: u16,
    bitrate_kbps: u32,
    /// Annex-B parameter sets of a complete keyframe.
    sps_pps: Vec<u8>,
}

impl OpenH264Encoder {
    /// Width and height of the pictures.
    pub closed spec fn size(&self) -> (u32, u32) {
        (self.width, self.height)
    }

    /// Frames per second.
    pub closed spec fn rate(&self) -> u16 {
        self.fps
    }

    /// Kilobits per second.
    pub closed spec fn kbps(&self) -> u32 {
        self.bitrate_kbps
    }

    /// The cached parameter sets.
    pub closed spec fn cache(&self) -> Seq<u8> {
        self.sps_pps@
    }

    /// The next picture was asked to be a keyframe.
    pub closed spec fn keyframe_asked(&self) -> bool {
        intra_asked(self.encoder)
    }

    /// The picture that was encoded last: its planes one after the other, its
    /// width and its height.
    pub closed spec fn encoded(&self) -> (Seq<u8>, usize, usize) {
        last_picture(self.encoder)
    }

    /// What the encoder underneath made of that picture: its kind and its bytes.
    pub closed spec fn made(&self) -> (FrameKind, Seq<u8>) {
        last_output(self.encoder)
    }

    /// The encoder underneath runs at the rates that are reported.
    pub closed spec fn wf(&self) -> bool {
        &&& self.bitrate_kbps * 1000 <= u32::MAX
        &&& encoder_settings(self.encoder) == (self.fps, (self.bitrate_kbps * 1000) as u32)
    }

    /// An encoder of `width` by `height` pictures.
    pub fn new(width: u32, height: u32, fps: u16, bitrate_kbps: u32) -> (out: Result<
        Self,
        H264Error,
    >)
        requires
            bitrate_kbps * 1000 <= u32::MAX,
        ensures
            match out {
                Ok(encoder) => {
                    &&& encoder.wf()
                    &&& encoder.size() == (width, height)
                    &&& encoder.rate() == fps
                    &&& encoder.kbps() == bitrate_kbps
                    &&& encoder.cache() == Seq::<u8>::empty()
                },
                Err(e) => e is Create,
            },
    {
        match create_encoder(fps, bitrate_kbps * 1000) {
            Ok(encoder) => Ok(
                Self { encoder, width, height, fps, bitrate_kbps, sps_pps: Vec::new() },
            ),
            Err(e) => Err(H264Error::Create(e)),
        }
    }

    /// Encode one picture, given as its luma and chroma planes. A frame that follows
    /// a request for a keyframe is one, unless the encoder skipped the picture.
    pub fn encode_frame(&mut self, y: &[u8], u: &[u8], v: &[u8]) -> (out: Result<
        EncodedFrame,
        H264Error,
    >)
        requires
            old(self).wf(),
            old(self).size().0 % 2 == 0,
            old(self).size().1 % 2 == 0,
            old(self).size().0 <= 0x7fff_ffff,
            old(self).size().1 <= 0x7fff_ffff,
            3 * (old(self).size().0 * old(self).size().1) <= usize::MAX,
            y@.len() + u@.len() + v@.len() == (3 * (old(self).size().0 * old(self).size().1)) / 2,
        ensures
            final(self).wf(),
            final(self).size() == old(self).size(),
            final(self).rate() == old(self).rate(),
            final(self).kbps() == old(self).kbps(),
            match out {
                Ok(frame) => {
                    &&& final(self).encoded() == (
                        y@ + u@ + v@,
                        old(self).size().0 as usize,
                        old(self).size().1 as usize,
                    )
                    &&& frame_of(
                        old(self).cache(),
                        final(self).made().0,
                        final(self).made().1,
                        frame,
                        final(self).cache(),
                    )
                    &&& old(self).keyframe_asked() ==> answers_request(final(self).made().0)
                },
                Err(e) => e is Encode && final(self).cache() == old(self).cache(),
            },
            !is_encodable(old(self).size().0 as int, old(self).size().1 as int) ==> out is Err,
    {
        let packed = pack_planes(y, u, v);
        match encode_picture(&mut self.encoder, packed, self.width as usize, self.height as usize) {
            Ok((kind, bitstream)) => {
                Ok(finish_frame(&mut self.sps_pps, kind, bitstream))
            },
            Err(e) => Err(H264Error::Encode(e)),
        }
    }

    /// Ask for the next frame to be a keyframe.
    pub fn force_keyframe(&mut self)
        requires
            old(self).wf(),
        ensures
            final(self).keyframe_asked(),
            final(self).wf(),
            final(self).size() == old(self).size(),
            final(self).rate() == old(self).rate(),
            final(self).kbps() == old(self).kbps(),
            final(self).cache() == old(self).cache(),
    {
        force_intra(&mut self.encoder);
    }

    /// Change the bit rate. OpenH264 cannot change it while it runs, so a new
    /// rate means a new encoder and an empty cache.
    pub fn set_bitrate_kbps(&mut self, kbps: u32) -> (out: Result<(), H264Error>)
        requires
            old(self).wf(),
            kbps * 1000 <= u32::MAX,
        ensures
            final(self).wf(),
            final(self).size() == old(self).size(),
            final(self).rate() == old(self).rate(),
            kbps == old(self).kbps() ==> out is Ok && *final(self) == *old(self),
            match out {
                Ok(_) => {
                    &&& final(self).kbps() == kbps
                    &&& kbps != old(self).kbps() ==> final(self).cache() == Seq::<u8>::empty()
                },
                Err(e) => e is Create && *final(self) == *old(self),
            },
    {
        if kbps == self.bitrate_kbps {
            return Ok(());
        }
        match create_encoder(self.fps, kbps * 1000) {
            Ok(encoder) => {
                self.encoder = encoder;
                self.sps_pps = Vec::new();
                self.bitrate_kbps = kbps;
                Ok(())
            },
            Err(e) => Err(H264Error::Create(e)),
        }
    }

    /// The bit rate in kilobits per second.
    pub fn bitrate_kbps(&self) -> (kbps: u32)
        ensures
            kbps == self.kbps(),
    {
        self.bitrate_kbps
    }
}

/// `frame` is what is sent when the encoder made `bitstream` of this kind,
/// and `after` is the cache then.
pub open spec fn frame_of(
    cache: Seq<u8>,
    kind: FrameKind,
    bitstream: Seq<u8>,
    frame: EncodedFrame,
    after: Seq<u8>,
) -> bool {
    &&& frame.codec == VideoCodec::H264
    &&& frame.is_keyframe == is_key_kind(kind)
    &&& is_key_kind(kind) ==> frame.data@ == complete_keyframe(cache, bitstream) && after
        == next_cache(cache, bitstream)
    &&& !is_key_kind(kind) ==> frame.data@ == bitstream && after == cache
}

/// The NAL units of a buffer stay where they are when bytes follow it, and
/// move along when bytes go before it.
pub proof fn law_nal_units_survive_joining(front: Seq<u8>, back: Seq<u8>)
    ensures
        forall|n: int| #[trigger]
            is_nal_start(front, n) ==> is_nal_start(front + back, n) && nal_type(front + back, n)
                == nal_type(front, n),
        forall|n: int| #[trigger]
            is_nal_start(back, n) ==> is_nal_start(front + back, front.len() + n) && nal_type(
                front + back,
                front.len() + n,
            ) == nal_type(back, n),
        forall|t: u8| has_nal(front, t) || has_nal(back, t) ==> #[trigger] has_nal(front + back, t),
{
    let all = front + back;
    assert forall|n: int| #[trigger] is_nal_start(front, n) implies is_nal_start(all, n)
        && nal_type(all, n) == nal_type(front, n) by {
        assert(all[n - 3] == front[n - 3] && all[n - 2] == front[n - 2] && all[n - 1] == front[n
            - 1] && all[n] == front[n]);
    }
    assert forall|n: int| #[trigger] is_nal_start(back, n) implies is_nal_start(
        all,
        front.len() + n,
    ) && nal_type(all, front.len() + n) == nal_type(back, n) by {
        let m = front.len() + n;
        assert(all[m - 3] == back[n - 3] && all[m - 2] == back[n - 2] && all[m - 1] == back[n - 1]
            && all[m] == back[n]);
    }
    assert forall|t: u8| has_nal(front, t) || has_nal(back, t) implies #[trigger] has_nal(all, t) by {
        if has_nal(front, t) {
            let n = choose|n: int| #[trigger] is_nal_start(front, n) && nal_type(front, n) == t;
            assert(is_nal_start(all, n));
        } else {
            let n = choose|n: int| #[trigger] is_nal_start(back, n) && nal_type(back, n) == t;
            assert(is_nal_start(all, front.len() + n));
        }
    }
}

/// A keyframe whose parameter sets both stand before its first IDR picture
/// fills an empty cache with both.
pub proof fn law_cache_holds_parameter_sets(data: Seq<u8>, sps: int, pps: int, idr: int)
    requires
        is_nal_start(data, sps),
        nal_type(data, sps) == 7,
        is_nal_start(data, pps),
        nal_type(data, pps) == 8,
        is_first_nal(data, 5, idr),
        sps < idr,
        pps < idr,
    ensures
        has_parameter_sets(next_cache(Seq::empty(), data)),
{
    lemma_first_nal_unique(data, 5, idr);
    let cached = next_cache(Seq::empty(), data);
    assert(has_nal(data, 5));
    assert(cached == data.subrange(0, start_code_of(data, idr)));
    assert(7u8 & 0x1f == 7 && 0u8 & 0x1f == 0 && 1u8 & 0x1f == 1) by (bit_vector);
    lemma_header_before_start_code(data, sps, idr);
    lemma_header_before_start_code(data, pps, idr);
    assert(is_nal_start(cached, sps) && nal_type(cached, sps) == 7);
    assert(is_nal_start(cached, pps) && nal_type(cached, pps) == 8);
}

/// A NAL header of type 7 or 8 stands before the start code of a later unit.
proof fn lemma_header_before_start_code(data: Seq<u8>, n: int, later: int)
    requires
        is_nal_start(data, n),
        nal_type(data, n) == 7 || nal_type(data, n) == 8,
        is_nal_start(data, later),
        n < later,
    ensures
        n < start_code_of(data, later),
{
    assert(0u8 & 0x1f == 0 && 1u8 & 0x1f == 1) by (bit_vector);
    assert(data[n] != 0 && data[n] != 1);
}

/// Once the cache holds the parameter sets, every keyframe that is sent holds
/// them, and every NAL unit of the encoder's keyframe is still in it.
pub proof fn law_keyframe_is_self_contained(cache: Seq<u8>, data: Seq<u8>)
    requires
        has_parameter_sets(cache),
    ensures
        has_parameter_sets(complete_keyframe(cache, data)),
        forall|t: u8| has_nal(data, t) ==> #[trigger] has_nal(complete_keyframe(cache, data), t),
{
    law_nal_units_survive_joining(cache, data);
}

/// The cache is filled once: it never changes while it holds something.
pub proof fn law_cache_is_stable(cache: Seq<u8>, data: Seq<u8>)
    requires
        cache.len() > 0,
    ensures
        next_cache(cache, data) == cache,
{
}

/// A completed keyframe is not changed by completing it again.
pub proof fn law_completing_is_idempotent(cache: Seq<u8>, data: Seq<u8>)
    requires
        has_parameter_sets(cache) || cache.len() == 0,
    ensures
        complete_keyframe(cache, complete_keyframe(cache, data)) == complete_keyframe(cache, data),
{
    if cache.len() == 0 {
        assert(cache + data =~= data);
    } else {
        law_keyframe_is_self_contained(cache, data);
    }
}

/// A NAL unit's type is the lower five bits of the byte after its start code, which is two
/// zeros and a one; a third zero in front belongs to the start code.
pub proof fn law_unit_follows_its_start_code(front: Seq<u8>, header: u8, rest: Seq<u8>)
    ensures
        ({
            let data = front + seq![0u8, 0u8, 1u8, header] + rest;
            let n = front.len() + 3;
            &&& is_nal_start(data, n as int)
            &&& nal_type(data, n as int) == header % 32
            &&& front.len() > 0 && front.last() == 0 ==> start_code_of(data, n as int)
                == front.len() - 1
            &&& front.len() == 0 || front.last() != 0 ==> start_code_of(data, n as int)
                == front.len()
        }),
{
    assert(header & 0x1f == header % 32) by (bit_vector);
    let data = front + seq![0u8, 0u8, 1u8, header] + rest;
    let n = front.len() + 3;
    assert(data[n - 3] == 0 && data[n - 2] == 0 && data[n - 1] == 1 && data[n as int] == header);
    if front.len() > 0 {
        assert(data[n - 4] == front.last());
    }
}

/// What is listed of a stream are its units, in the order in which they stand, with where
/// each start code begins.
pub proof fn law_units_are_listed_in_order(
    data: &[u8],
    ranges: Vec<AnnexBNalRange>,
    k: int,
    n: int,
)
    requires
        call_ensures(annexb_nal_ranges, (data,), ranges),
    ensures
        0 <= k < ranges@.len() ==> {
            let at = ranges@[k].nal_start as int;
            &&& data@[at - 1] == 1 && data@[at - 2] == 0 && data@[at - 3] == 0
            &&& ranges@[k].start_code_start == at - 3 || ranges@[k].start_code_start == at - 4
            &&& data@[ranges@[k].start_code_start as int] == 0
        },
        0 <= k && k + 1 < ranges@.len() ==> ranges@[k].nal_start < ranges@[k + 1].nal_start,
        3 <= n < data@.len() && data@[n - 3] == 0 && data@[n - 2] == 0 && data@[n - 1] == 1
            ==> exists|i: int| 0 <= i < ranges@.len() && (#[trigger] ranges@[i]).nal_start == n,
{
    if 0 <= k < ranges@.len() {
        assert(is_nal_start(data@, ranges@[k].nal_start as int));
    }
    if 3 <= n < data@.len() && data@[n - 3] == 0 && data@[n - 2] == 0 && data@[n - 1] == 1 {
        assert(is_nal_start(data@, n));
    }
}

/// What the encoder made goes out as it is, but for a keyframe without its parameter sets:
/// that one gets the ones that are known in front. Only frames that decode on their own
/// are keyframes, and only they change what is known.
pub proof fn law_keyframes_go_out_complete(kind: FrameKind, bitstream: Vec<u8>)
    ensures
        forall|c: &mut Vec<u8>, frame: EncodedFrame| #[trigger]
            call_ensures(finish_frame, (c, kind, bitstream), frame) ==> {
                let known = (*c)@;
                let complete = has_nal(bitstream@, 7) && has_nal(bitstream@, 8);
                &&& frame.codec is H264
                &&& frame.is_keyframe <==> kind is Idr || kind is I
                &&& !frame.is_keyframe || complete ==> frame.data@ == bitstream@
                &&& frame.is_keyframe && !complete ==> frame.data@ == known + bitstream@
                &&& !frame.is_keyframe || known.len() > 0 || !complete ==> (*final(c))@ == known
            },
        forall|c: &mut Vec<u8>, d: &mut Vec<u8>, out: ()| #[trigger]
            call_ensures(ensure_keyframe_has_sps_pps, (c, d), out) ==> {
                let complete = has_nal((*d)@, 7) && has_nal((*d)@, 8);
                &&& complete ==> (*final(d))@ == (*d)@
                &&& !complete ==> (*final(d))@ == (*c)@ + (*d)@
                &&& (*c)@.len() > 0 || !complete ==> (*final(c))@ == (*c)@
            },
{
}

/// What is kept of the first complete keyframe is what stands before its first IDR picture
/// and its start code.
pub proof fn law_kept_part_ends_at_the_picture(data: Seq<u8>, idr: int)
    requires
        has_nal(data, 7),
        has_nal(data, 8),
        is_first_nal(data, 5, idr),
    ensures
        next_cache(Seq::empty(), data) == data.take(start_code_of(data, idr)),
        next_cache(Seq::empty(), data).len() == idr - 3 || next_cache(Seq::empty(), data).len()
            == idr - 4,
{
    lemma_first_nal_unique(data, 5, idr);
    assert(is_nal_start(data, idr));
    assert(has_nal(data, 5));
    assert(next_cache(Seq::empty(), data) =~= data.take(start_code_of(data, idr)));
}

/// The planes of a picture follow each other: luma, then the two of chroma.
pub proof fn law_luma_comes_first(y: &[u8], u: &[u8], v: &[u8], packed: Vec<u8>)
    requires
        call_ensures(pack_planes, (y, u, v), packed),
    ensures
        packed@.len() == y@.len() + u@.len() + v@.len(),
        packed@.take(y@.len() as int) == y@,
        packed@.subrange(y@.len() as int, (y@.len() + u@.len()) as int) == u@,
        packed@.skip((y@.len() + u@.len()) as int) == v@,
{
    assert(packed@.take(y@.len() as int) =~= y@);
    assert(packed@.subrange(y@.len() as int, (y@.len() + u@.len()) as int) =~= u@);
    assert(packed@.skip((y@.len() + u@.len()) as int) =~= v@);
}

/// An encoder has the size and rates that it was made with; a new bit rate changes that
/// alone and forgets the parameter sets; the same one changes nothing.
pub proof fn law_new_bit_rate_is_a_new_encoder(
    width: u32,
    height: u32,
    fps: u16,
    kbps: u32,
    made: Result<OpenH264Encoder, H264Error>,
)
    requires
        kbps * 1000 <= u32::MAX,
        call_ensures(OpenH264Encoder::new, (width, height, fps, kbps), made),
    ensures
        made matches Ok(e) ==> e.size() == (width, height) && e.rate() == fps && e.kbps() == kbps
            && e.cache().len() == 0,
        forall|e: &mut OpenH264Encoder, r: Result<(), H264Error>|
            (*e).wf() && #[trigger] call_ensures(
                OpenH264Encoder::set_bitrate_kbps,
                (e, kbps),
                r,
            ) ==> {
                &&& (*final(e)).size() == (*e).size() && (*final(e)).rate() == (*e).rate()
                &&& r is Ok ==> (*final(e)).kbps() == kbps
                &&& r is Ok && (*e).kbps() != kbps ==> (*final(e)).cache().len() == 0
                &&& (*e).kbps() == kbps ==> r is Ok && (*final(e)).cache() == (*e).cache()
                &&& r is Err ==> (*final(e)).kbps() == (*e).kbps()
            },
{
}

/// A start code that stands where the search begins is found there, and one of four bytes
/// is known as such.
pub proof fn law_start_code_is_found_where_it_stands(
    data: &[u8],
    from: usize,
    found: Option<(usize, usize)>,
)
    requires
        call_ensures(find_annexb_start, (data, from), found),
        from + 3 < data@.len(),
        data@[from as int] == 0,
        data@[from + 1] == 0,
    ensures
        data@[from + 2] == 1 ==> found == Some((from, 3usize)),
        data@[from + 2] == 0 && data@[from + 3] == 1 ==> found == Some((from, 4usize)),
{
    if data@[from + 2] == 1 {
        assert(start_code_at(data@, from as int, 3));
    } else if data@[from + 2] == 0 && data@[from + 3] == 1 {
        assert(start_code_at(data@, from as int, 4));
    }
}

/// A picture goes to the encoder with its luma first and at the encoder's size, and what
/// comes out is what the encoder made of it, with the known parameter sets in front of a
/// keyframe that lacks them; nothing larger than the encoder takes is encoded.
pub proof fn law_picture_is_encoded_as_given(y: &[u8], u: &[u8], v: &[u8])
    ensures
        forall|e: &mut OpenH264Encoder, out: Result<EncodedFrame, H264Error>|
            (*e).wf() && #[trigger] call_ensures(OpenH264Encoder::encode_frame, (e, y, u, v), out)
                ==> {
                let (before, after) = (*e, *final(e));
                let (kind, made) = after.made();
                let key = kind is Idr || kind is I;
                let complete = has_nal(made, 7) && has_nal(made, 8);
                &&& after.size() == before.size() && after.rate() == before.rate() && after.kbps()
                    == before.kbps()
                &&& before.size().0 > 3840 || before.size().1 > 3840 ==> out is Err
                &&& before.size().0 > 2160 && before.size().1 > 2160 ==> out is Err
                &&& out matches Ok(frame) ==> {
                    &&& after.encoded().0 == y@ + u@ + v@
                    &&& after.encoded().1 == before.size().0 && after.encoded().2
                        == before.size().1
                    &&& frame.codec is H264
                    &&& frame.is_keyframe <==> key
                    &&& !key || complete ==> frame.data@ == made
                    &&& key && !complete ==> frame.data@ == before.cache() + made
                    &&& !key || before.cache().len() > 0 ==> after.cache() == before.cache()
                    &&& before.keyframe_asked() ==> key || kind is Skip || kind is Invalid
                }
                &&& out is Err ==> after.cache() == before.cache()
            },
{
}

} // verus!
