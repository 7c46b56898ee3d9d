//! Sound on its way to the viewer: samples of whatever device there is, brought
//! to one format and cut into frames of equal length for the encoder.

use vstd::prelude::*;

verus! {

/// Samples per second that viewers are sent.
pub const SAMPLE_RATE: u32 = 48_000;

/// Channels that viewers are sent.
pub const CHANNELS: u8 = 2;

/// The room there is for one encoded frame, in bytes.
pub const OPUS_BUFFER: usize = 4000;

/// How many encoded frames may wait to be sent, about a second of them.
pub const QUEUED_CHUNKS: usize = 50;

/// The pause between two looks for new sound, in milliseconds.
pub const POLL_MS: u64 = 10;

/// One encoded frame of sound.
#[derive(Debug, Clone, PartialEq, Eq)]
pub struct AudioChunk {
    pub data: Vec<u8>,
    pub sample_rate: u32,
    pub channels: u8,
}

/// The format in which a device hands out its samples.
#[derive(Debug, Clone, Copy, PartialEq, Eq, Structural)]
pub struct DeviceFormat {
    pub sample_rate: u32,
    pub channels: u16,
    pub bits_per_sample: u16,
}

/// How a device writes a sample.
#[derive(Debug, Clone, Copy, PartialEq, Eq, Structural)]
pub enum SampleEncoding {
    /// A 32-bit number between -1 and 1.
    Float32,
    Int16,
    /// Three bytes, the lowest first.
    Int24,
    /// None of these: taken for silence.
    Unknown,
}

impl DeviceFormat {
    pub open spec fn spec_encoding(self) -> SampleEncoding {
        if self.bits_per_sample == 32 {
            SampleEncoding::Float32
        } else if self.bits_per_sample == 16 {
            SampleEncoding::Int16
        } else if self.bits_per_sample == 24 {
            SampleEncoding::Int24
        } else {
            SampleEncoding::Unknown
        }
    }

    /// How the device writes a sample, by its size.
    pub fn encoding(&self) -> (encoding: SampleEncoding)
        ensures
            encoding == self.spec_encoding(),
    {
        match self.bits_per_sample {
            32 => SampleEncoding::Float32,
            16 => SampleEncoding::Int16,
            24 => SampleEncoding::Int24,
            _ => SampleEncoding::Unknown,
        }
    }

    /// The device's rate is not the one that viewers are sent.
    pub fn needs_resample(&self, target: u32) -> (needed: bool)
        ensures
            needed == (self.sample_rate != target),
    {
        self.sample_rate != target
    }

    /// The device's channels are not those that viewers are sent. The count is
    /// compared as a byte.
    pub open spec fn converts_channels(self, target: u8) -> bool {
        self.channels % 256 != target
    }

    pub fn needs_channel_convert(&self, target: u8) -> (needed: bool)
        ensures
            needed == self.converts_channels(target),
    {
        self.channels % 256 != target as u16
    }

    /// How many samples a packet of `frames` has.
    pub fn total_samples(&self, frames: u32) -> (total: usize)
        requires
            frames * self.channels <= usize::MAX,
        ensures
            total == frames * self.channels,
    {
        assert(0 <= frames * self.channels) by (nonlinear_arith);
        frames as usize * self.channels as usize
    }
}

/// The number that two bytes hold, the higher one first, as a signed number.
pub open spec fn signed16(high: u8, low: u8) -> int {
    let n = high * 256 + low;
    if n >= 0x8000 {
        n - 0x1_0000
    } else {
        n
    }
}

/// Sample `i` of packed 24-bit samples without its lowest byte; 0 past the end.
pub open spec fn sample24(bytes: Seq<u8>, i: int) -> i16 {
    if i * 3 + 2 < bytes.len() {
        signed16(bytes[i * 3 + 2], bytes[i * 3 + 1]) as i16
    } else {
        0
    }
}

/// The upper 16 bits of packed 24-bit samples.
pub fn i24_to_i16(bytes: &[u8], num_samples: usize) -> (out: Vec<i16>)
    requires
        num_samples * 3 <= usize::MAX,
    ensures
        out@ == Seq::new(num_samples as nat, |i: int| sample24(bytes@, i)),
{
    let mut out: Vec<i16> = Vec::new();
    let total: usize = bytes.len();
    let mut i: usize = 0;
    while i < num_samples
        invariant
            i <= num_samples,
            total == bytes@.len(),
            num_samples * 3 <= usize::MAX,
            out@ == Seq::new(i as nat, |j: int| sample24(bytes@, j)),
        decreases num_samples - i,
    {
        let offset: usize = i * 3;
        if offset + 2 < total {
            let n: i32 = bytes[offset + 2] as i32 * 256 + bytes[offset + 1] as i32;
            let sample: i16 = if n >= 0x8000 {
                (n - 0x1_0000) as i16
            } else {
                n as i16
            };
            out.push(sample);
        } else {
            out.push(0);
        }
        i = i + 1;
    }
    out
}

/// As many samples of silence.
pub fn silence(num_samples: usize) -> (out: Vec<i16>)
    ensures
        out@ == Seq::new(num_samples as nat, |i: int| 0i16),
{
    let mut out: Vec<i16> = Vec::new();
    let mut i: usize = 0;
    while i < num_samples
        invariant
            i <= num_samples,
            out@ == Seq::new(i as nat, |i: int| 0i16),
        decreases num_samples - i,
    {
        out.push(0);
        i = i + 1;
    }
    out
}

/// Half of `n`, towards zero.
pub open spec fn half(n: int) -> int {
    if n >= 0 {
        n / 2
    } else {
        -(-n / 2)
    }
}

/// One sample of each channel, brought to `to` channels: a single channel is
/// doubled, the first two of several are kept, a pair is averaged, and otherwise
/// what is missing is silence.
pub open spec fn converted_frame(frame: Seq<i16>, to: int) -> Seq<i16> {
    let from = frame.len();
    if from == 1 && to == 2 {
        seq![frame[0], frame[0]]
    } else if from >= 2 && to == 2 {
        seq![frame[0], frame[1]]
    } else if from == 2 && to == 1 {
        seq![half(frame[0] + frame[1]) as i16]
    } else {
        Seq::new(
            to as nat,
            |c: int|
                if c < from {
                    frame[c]
                } else {
                    0i16
                },
        )
    }
}

/// The first `n` frames of `pcm`, brought to `to` channels.
pub open spec fn converted_frames(pcm: Seq<i16>, from: int, to: int, n: int) -> Seq<i16>
    decreases n,
{
    if n <= 0 {
        Seq::empty()
    } else {
        converted_frames(pcm, from, to, n - 1) + converted_frame(
            pcm.subrange((n - 1) * from, n * from),
            to,
        )
    }
}

/// `pcm` with `to` channels in place of `from`. What is left of a broken frame at
/// the end is dropped.
pub open spec fn converted(pcm: Seq<i16>, from: int, to: int) -> Seq<i16> {
    if from == to {
        pcm
    } else {
        converted_frames(pcm, from, to, pcm.len() as int / from)
    }
}

fn copy_samples(pcm: &[i16]) -> (out: Vec<i16>)
    ensures
        out@ == pcm@,
{
    let mut out: Vec<i16> = Vec::new();
    out.extend_from_slice(pcm);
    assert(out@ == pcm@);
    out
}

/// Brings `pcm` from one count of channels to another.
pub fn convert_channels(pcm: &[i16], from_channels: usize, to_channels: usize) -> (out: Vec<i16>)
    requires
        from_channels > 0 || to_channels == 0,
    ensures
        out@ == converted(pcm@, from_channels as int, to_channels as int),
{
    if from_channels == to_channels {
        return copy_samples(pcm);
    }
    let total: usize = pcm.len();
    let frames: usize = total / from_channels;
    let ghost from = from_channels as int;
    let ghost to = to_channels as int;
    let mut out: Vec<i16> = Vec::new();
    let mut k: usize = 0;
    let mut offset: usize = 0;
    assert(0 * from == 0);
    while k < frames
        invariant
            k <= frames,
            total == pcm@.len(),
            from == from_channels,
            to == to_channels,
            from > 0,
            from != to,
            frames == total as int / from,
            offset == k * from,
            out@ == converted_frames(pcm@, from, to, k as int),
        decreases frames - k,
    {
        let ghost frame = pcm@.subrange(k * from, (k + 1) * from);
        assert((k + 1) * from == k * from + from) by (nonlinear_arith);
        assert((k + 1) * from <= total) by (nonlinear_arith)
            requires
                k + 1 <= frames,
                frames == total as int / from,
                from > 0,
        ;
        if from_channels == 1 && to_channels == 2 {
            let sample: i16 = pcm[offset];
            out.push(sample);
            out.push(sample);
        } else if from_channels >= 2 && to_channels == 2 {
            out.push(pcm[offset]);
            out.push(pcm[offset + 1]);
        } else if from_channels == 2 && to_channels == 1 {
            let sum: i32 = pcm[offset] as i32 + pcm[offset + 1] as i32;
            let mean: i32 = if sum >= 0 {
                sum / 2
            } else {
                -(-sum / 2)
            };
            out.push(mean as i16);
        } else {
            let ghost before = out@;
            let mut c: usize = 0;
            while c < to_channels
                invariant
                    c <= to_channels,
                    offset + from_channels <= total == pcm@.len(),
                    frame == pcm@.subrange(offset as int, offset + from_channels),
                    out@ == before + Seq::new(
                        c as nat,
                        |c: int|
                            if c < from_channels {
                                frame[c]
                            } else {
                                0i16
                            },
                    ),
                decreases to_channels - c,
            {
                if c < from_channels {
                    out.push(pcm[offset + c]);
                } else {
                    out.push(0);
                }
                c = c + 1;
            }
        }
        assert(out@ == converted_frames(pcm@, from, to, k as int) + converted_frame(frame, to));
        k = k + 1;
        offset = offset + from_channels;
    }
    out
}

/// How many frames there are once `pcm_len` samples have gone from one rate to
/// another.
pub fn resampled_frames(pcm_len: usize, channels: usize, from_rate: u32, to_rate: u32) -> (frames:
    usize)
    requires
        channels > 0,
        from_rate > 0,
        (pcm_len as int / channels as int) * to_rate / (from_rate as int) <= usize::MAX,
        pcm_len * to_rate <= u64::MAX,
    ensures
        frames == (pcm_len as int / channels as int) * to_rate / (from_rate as int),
{
    let frames_in: usize = pcm_len / channels;
    assert(frames_in * to_rate <= pcm_len * to_rate) by (nonlinear_arith)
        requires
            frames_in == pcm_len as int / channels as int,
            channels > 0,
    ;
    assert(0 <= frames_in * to_rate) by (nonlinear_arith);
    (frames_in as u64 * to_rate as u64 / from_rate as u64) as usize
}

/// The two samples of a channel between which a place in the sound lies: that of
/// frame `index` and the next one. Past the end it is silent, and the last sample
/// stands in for the one after it.
pub fn neighbours(pcm: &[i16], index: usize, channels: usize, channel: usize) -> (pair: (i16, i16))
    requires
        (index + 1) * channels + channel <= usize::MAX,
    ensures
        pair.0 == (if index * channels + channel < pcm@.len() {
            pcm@[index * channels + channel]
        } else {
            0i16
        }),
        pair.1 == (if (index + 1) * channels + channel < pcm@.len() {
            pcm@[(index + 1) * channels + channel]
        } else {
            pair.0
        }),
{
    let total: usize = pcm.len();
    assert((index + 1) * channels == index * channels + channels) by (nonlinear_arith);
    assert(0 <= index * channels) by (nonlinear_arith);
    let here: usize = index * channels + channel;
    let next: usize = here + channels;
    let first: i16 = if here < total {
        pcm[here]
    } else {
        0
    };
    let second: i16 = if next < total {
        pcm[next]
    } else {
        first
    };
    (first, second)
}

/// Samples that wait until there are enough for a frame.
pub struct PcmAccumulator {
    pub samples: Vec<i16>,
    /// The samples in a frame, all channels together.
    pub frame_size: usize,
}

/// The whole frames that `samples` begin with.
pub open spec fn frames_in(samples: Seq<i16>, frame_size: int) -> Seq<Seq<i16>> {
    Seq::new(
        (samples.len() as int / frame_size) as nat,
        |k: int| samples.subrange(k * frame_size, (k + 1) * frame_size),
    )
}

/// What is left after the whole frames.
pub open spec fn left_over(samples: Seq<i16>, frame_size: int) -> Seq<i16> {
    samples.skip((samples.len() as int / frame_size) * frame_size)
}

/// Frames one after the other.
pub open spec fn flat(frames: Seq<Seq<i16>>) -> Seq<i16>
    decreases frames.len(),
{
    if frames.len() == 0 {
        Seq::empty()
    } else {
        flat(frames.drop_last()) + frames.last()
    }
}

/// The frames as sequences.
pub open spec fn frames_view(frames: Seq<Vec<i16>>) -> Seq<Seq<i16>> {
    Seq::new(frames.len(), |k: int| frames[k]@)
}

impl PcmAccumulator {
    /// Less than a frame waits.
    pub open spec fn wf(self) -> bool {
        self.frame_size > 0 && self.samples@.len() < self.frame_size
    }

    /// Frames of 20 milliseconds at `sample_rate`.
    pub fn new(sample_rate: u32, channels: u8) -> (acc: PcmAccumulator)
        requires
            sample_rate >= 50,
            channels > 0,
            sample_rate / 50 * channels <= usize::MAX,
        ensures
            acc.samples@ == Seq::<i16>::empty(),
            acc.frame_size == sample_rate / 50 * channels,
            acc.wf(),
    {
        let per_channel: usize = (sample_rate / 50) as usize;
        assert(per_channel * channels >= 1) by (nonlinear_arith)
            requires
                per_channel >= 1,
                channels >= 1,
        ;
        PcmAccumulator { samples: Vec::new(), frame_size: per_channel * channels as usize }
    }

    /// Takes more samples in and hands out the frames that are full now.
    pub fn accumulate(&mut self, pcm: &[i16]) -> (frames: Vec<Vec<i16>>)
        requires
            old(self).wf(),
        ensures
            final(self).wf(),
            final(self).frame_size == old(self).frame_size,
            frames_view(frames@) == frames_in(
                old(self).samples@ + pcm@,
                old(self).frame_size as int,
            ),
            final(self).samples@ == left_over(
                old(self).samples@ + pcm@,
                old(self).frame_size as int,
            ),
    {
        let ghost all = self.samples@ + pcm@;
        let ghost n = self.frame_size as int;
        self.samples.extend_from_slice(pcm);
        assert(self.samples@ == all);
        let total: usize = self.samples.len();
        let size: usize = self.frame_size;
        let mut frames: Vec<Vec<i16>> = Vec::new();
        let mut at: usize = 0;
        let ghost mut k: int = 0;
        assert(0 * n == 0);
        while total - at >= size
            invariant
                self.frame_size == size == n,
                n > 0,
                self.samples@ == all,
                total == all.len(),
                at == k * n,
                at <= total,
                k >= 0,
                frames_view(frames@) == Seq::new(
                    k as nat,
                    |k: int| all.subrange(k * n, (k + 1) * n),
                ),
            decreases total - at,
        {
            assert((k + 1) * n == k * n + n) by (nonlinear_arith);
            let frame: Vec<i16> = samples_between(self.samples.as_slice(), at, at + size);
            let ghost earlier = frames@;
            frames.push(frame);
            assert(frames_view(frames@) == frames_view(earlier).push(frame@));
            at = at + size;
            proof {
                k = k + 1;
            }
        }
        proof {
            vstd::arithmetic::div_mod::lemma_fundamental_div_mod_converse(
                total as int,
                n,
                k,
                total - at,
            );
        }
        let rest: Vec<i16> = samples_between(self.samples.as_slice(), at, total);
        assert(rest@ == all.skip(at as int));
        self.samples = rest;
        frames
    }
}

fn samples_between(pcm: &[i16], from: usize, to: usize) -> (out: Vec<i16>)
    requires
        from <= to <= pcm@.len(),
    ensures
        out@ == pcm@.subrange(from as int, to as int),
{
    let mut out: Vec<i16> = Vec::new();
    let mut i: usize = from;
    while i < to
        invariant
            from <= i <= to <= pcm@.len(),
            out@ == pcm@.subrange(from as int, i as int),
        decreases to - i,
    {
        out.push(pcm[i]);
        i = i + 1;
    }
    out
}

/// Brings a packet's samples to the channels that viewers are sent.
pub fn to_target_channels(pcm: Vec<i16>, format: DeviceFormat, target: u8) -> (out: Vec<i16>)
    requires
        format.channels > 0,
    ensures
        out@ == if format.converts_channels(target) {
            converted(pcm@, format.channels as int, target as int)
        } else {
            pcm@
        },
{
    if format.needs_channel_convert(target) {
        convert_channels(pcm.as_slice(), format.channels as usize, target as usize)
    } else {
        pcm
    }
}

/// The chunk that an encoder filled the first `len` bytes of `buffer` for. A frame
/// that it could not encode is skipped.
pub fn finish_chunk(buffer: &[u8], len: Option<usize>, sample_rate: u32, channels: u8) -> (chunk:
    Option<AudioChunk>)
    requires
        len matches Some(n) ==> n <= buffer@.len(),
    ensures
        chunk is Some <==> len is Some,
        chunk matches Some(c) ==> {
            &&& c.data@ == buffer@.take(len->0 as int)
            &&& c.sample_rate == sample_rate
            &&& c.channels == channels
        },
{
    match len {
        Some(n) => Some(
            AudioChunk { data: crate::bytes::copy_range(buffer, 0, n), sample_rate, channels },
        ),
        None => None,
    }
}

/// No sample is lost or moved on the way into frames: the frames one after the
/// other, and then what waits, are the samples that came in.
pub proof fn law_frames_hold_every_sample(samples: Seq<i16>, frame_size: int)
    requires
        frame_size > 0,
    ensures
        flat(frames_in(samples, frame_size)) + left_over(samples, frame_size) == samples,
        left_over(samples, frame_size).len() < frame_size,
        forall|k: int|
            0 <= k < frames_in(samples, frame_size).len() ==> (#[trigger] frames_in(
                samples,
                frame_size,
            )[k]).len() == frame_size,
{
    let n = samples.len() as int / frame_size;
    vstd::arithmetic::div_mod::lemma_fundamental_div_mod(samples.len() as int, frame_size);
    assert(n * frame_size == frame_size * n) by (nonlinear_arith);
    lemma_flat(samples, frame_size, n);
    assert(frames_in(samples, frame_size).take(n) == frames_in(samples, frame_size));
    assert forall|k: int| 0 <= k < n implies (#[trigger] frames_in(samples, frame_size)[k]).len()
        == frame_size by {
        assert(0 <= k * frame_size && (k + 1) * frame_size <= n * frame_size && (k + 1)
            * frame_size == k * frame_size + frame_size) by (nonlinear_arith)
            requires
                0 <= k < n,
                frame_size > 0,
        ;
    }
    assert(samples.take(n * frame_size) + samples.skip(n * frame_size) == samples);
}

proof fn lemma_flat(samples: Seq<i16>, frame_size: int, n: int)
    requires
        frame_size > 0,
        0 <= n <= samples.len() as int / frame_size,
    ensures
        n * frame_size <= samples.len(),
        flat(frames_in(samples, frame_size).take(n)) == samples.take(n * frame_size),
    decreases n,
{
    assert(n * frame_size <= samples.len()) by (nonlinear_arith)
        requires
            n <= samples.len() as int / frame_size,
            frame_size > 0,
            0 <= n,
    ;
    let frames = frames_in(samples, frame_size);
    if n > 0 {
        lemma_flat(samples, frame_size, n - 1);
        assert(frames.take(n).drop_last() == frames.take(n - 1));
        assert(0 <= (n - 1) * frame_size && (n - 1) * frame_size + frame_size == n * frame_size)
            by (nonlinear_arith)
            requires
                n >= 1,
                frame_size > 0,
        ;
        assert(samples.take((n - 1) * frame_size) + samples.subrange(
            (n - 1) * frame_size,
            n * frame_size,
        ) == samples.take(n * frame_size));
    } else {
        assert(frames.take(0) == Seq::<Seq<i16>>::empty());
        assert(0 * frame_size == 0);
        assert(samples.take(0) == Seq::<i16>::empty());
    }
}

/// However sound comes in, it goes out the same: two packets one after the other
/// give the frames of the packet that joins them.
pub proof fn law_packets_do_not_matter(waiting: Seq<i16>, a: Seq<i16>, b: Seq<i16>, frame_size: int)
    requires
        frame_size > 0,
    ensures
        frames_in(waiting + a, frame_size) + frames_in(
            left_over(waiting + a, frame_size) + b,
            frame_size,
        ) == frames_in(waiting + a + b, frame_size),
        left_over(left_over(waiting + a, frame_size) + b, frame_size) == left_over(
            waiting + a + b,
            frame_size,
        ),
{
    let x = waiting + a;
    let all = x + b;
    let m = x.len() as int / frame_size;
    let rest = left_over(x, frame_size);
    let y = rest + b;
    let k = y.len() as int / frame_size;
    vstd::arithmetic::div_mod::lemma_fundamental_div_mod(x.len() as int, frame_size);
    vstd::arithmetic::div_mod::lemma_fundamental_div_mod(y.len() as int, frame_size);
    assert(m * frame_size == frame_size * m) by (nonlinear_arith);
    assert(k * frame_size == frame_size * k) by (nonlinear_arith);
    assert((m + k) * frame_size == m * frame_size + k * frame_size) by (nonlinear_arith);
    assert(m >= 0 && m * frame_size >= 0) by (nonlinear_arith)
        requires
            m == x.len() as int / frame_size,
            frame_size > 0,
    ;
    assert(y == all.skip(m * frame_size));
    assert(all.len() == (m + k) * frame_size + y.len() as int % frame_size);
    vstd::arithmetic::div_mod::lemma_fundamental_div_mod_converse(
        all.len() as int,
        frame_size,
        m + k,
        y.len() as int % frame_size,
    );
    let left = frames_in(x, frame_size) + frames_in(y, frame_size);
    let right = frames_in(all, frame_size);
    assert(k >= 0) by (nonlinear_arith)
        requires
            k == y.len() as int / frame_size,
            frame_size > 0,
    ;
    assert forall|i: int| 0 <= i < m + k implies left[i] == right[i] by {
        assert(0 <= i * frame_size && (i + 1) * frame_size == i * frame_size + frame_size)
            by (nonlinear_arith)
            requires
                0 <= i,
                frame_size > 0,
        ;
        if i < m {
            assert((i + 1) * frame_size <= m * frame_size) by (nonlinear_arith)
                requires
                    i + 1 <= m,
                    frame_size > 0,
            ;
            assert(left[i] == x.subrange(i * frame_size, (i + 1) * frame_size));
        } else {
            let j = i - m;
            assert(j * frame_size == i * frame_size - m * frame_size && (j + 1) * frame_size == j
                * frame_size + frame_size && (j + 1) * frame_size <= k * frame_size && 0 <= j
                * frame_size) by (nonlinear_arith)
                requires
                    j == i - m,
                    0 <= j < k,
                    frame_size > 0,
            ;
            assert(left[i] == y.subrange(j * frame_size, (j + 1) * frame_size));
        }
    }
    assert(left == right);
}

/// Doubling a single channel loses nothing: bringing the pair back to one channel
/// gives what there was.
pub proof fn law_mono_survives_stereo(frame: Seq<i16>)
    requires
        frame.len() == 1,
    ensures
        converted_frame(converted_frame(frame, 2), 1) == frame,
{
}

/// A converted frame has as many samples as there are channels.
proof fn lemma_converted_frame_len(frame: Seq<i16>, to: int)
    requires
        to >= 0,
    ensures
        converted_frame(frame, to).len() == to,
{
}

/// Frame `k` of converted sound is frame `k` of the sound, converted.
proof fn lemma_converted_frames(pcm: Seq<i16>, from: int, to: int, n: int)
    requires
        from > 0,
        to >= 0,
        n >= 0,
    ensures
        converted_frames(pcm, from, to, n).len() == n * to,
        forall|k: int, c: int|
            0 <= k < n && 0 <= c < to ==> #[trigger] converted_frames(pcm, from, to, n)[k * to + c]
                == converted_frame(pcm.subrange(k * from, (k + 1) * from), to)[c],
    decreases n,
{
    if n > 0 {
        lemma_converted_frames(pcm, from, to, n - 1);
        let before = converted_frames(pcm, from, to, n - 1);
        let last = converted_frame(pcm.subrange((n - 1) * from, n * from), to);
        lemma_converted_frame_len(pcm.subrange((n - 1) * from, n * from), to);
        assert(n * to == (n - 1) * to + to) by (nonlinear_arith);
        assert forall|k: int, c: int| 0 <= k < n && 0 <= c < to implies #[trigger] (before + last)[k
            * to + c] == converted_frame(pcm.subrange(k * from, (k + 1) * from), to)[c] by {
            if k < n - 1 {
                assert(k * to + c < (n - 1) * to && k * to + c >= 0) by (nonlinear_arith)
                    requires
                        0 <= k <= n - 2,
                        0 <= c < to,
                ;
                assert(before[k * to + c] == converted_frame(
                    pcm.subrange(k * from, (k + 1) * from),
                    to,
                )[c]);
            } else {
                assert(k * to + c == before.len() + c);
            }
        }
    } else {
        assert(0 * to == 0);
    }
}

/// Frame `k` lies in the sound.
proof fn lemma_frame_inside(len: int, from: int, k: int)
    requires
        from > 0,
        0 <= k < len / from,
    ensures
        0 <= k * from,
        (k + 1) * from == k * from + from,
        (k + 1) * from <= len,
{
    assert(0 <= k * from && (k + 1) * from == k * from + from && (k + 1) * from <= len)
        by (nonlinear_arith)
        requires
            from > 0,
            0 <= k < len / from,
    ;
}

/// Of several channels the viewer hears the first two, front left and front right, each in
/// its own ear, frame by frame.
pub proof fn law_stereo_keeps_the_front_pair(pcm: &[i16], from: usize, out: Vec<i16>, k: int)
    requires
        call_ensures(convert_channels, (pcm, from, 2usize), out),
        from >= 2,
        0 <= k < pcm@.len() as int / from as int,
    ensures
        from > 2 ==> out@.len() == 2 * (pcm@.len() as int / from as int),
        out@[2 * k] == pcm@[k * from],
        out@[2 * k + 1] == pcm@[k * from + 1],
{
    let n = pcm@.len() as int / from as int;
    lemma_frame_inside(pcm@.len() as int, from as int, k);
    if from > 2 {
        lemma_converted_frames(pcm@, from as int, 2, n);
        let all = converted_frames(pcm@, from as int, 2, n);
        assert(all[k * 2 + 0] == converted_frame(
            pcm@.subrange(k * from, (k + 1) * from),
            2,
        )[0]);
        assert(all[k * 2 + 1] == converted_frame(
            pcm@.subrange(k * from, (k + 1) * from),
            2,
        )[1]);
    }
}

/// A single channel is heard in both ears, at the same time and as it was.
pub proof fn law_mono_is_heard_in_both_ears(pcm: &[i16], out: Vec<i16>, k: int)
    requires
        call_ensures(convert_channels, (pcm, 1usize, 2usize), out),
        0 <= k < pcm@.len(),
    ensures
        out@.len() == 2 * pcm@.len(),
        out@[2 * k] == pcm@[k],
        out@[2 * k + 1] == pcm@[k],
{
    let n = pcm@.len() as int;
    assert(n / 1 == n);
    lemma_converted_frames(pcm@, 1, 2, n);
    let all = converted_frames(pcm@, 1, 2, n);
    assert(all[k * 2 + 0] == converted_frame(pcm@.subrange(k * 1, (k + 1) * 1), 2)[0]);
    assert(all[k * 2 + 1] == converted_frame(pcm@.subrange(k * 1, (k + 1) * 1), 2)[1]);
}

/// A pair of channels in one is their mean, and never louder than it.
pub proof fn law_pair_becomes_its_mean(pcm: &[i16], out: Vec<i16>, k: int)
    requires
        call_ensures(convert_channels, (pcm, 2usize, 1usize), out),
        0 <= k < pcm@.len() as int / 2,
    ensures
        out@.len() == pcm@.len() as int / 2,
        ({
            let sum = pcm@[2 * k] + pcm@[2 * k + 1];
            &&& -1 <= 2 * out@[k] - sum <= 1
            &&& sum >= 0 ==> 0 <= 2 * out@[k] <= sum
            &&& sum <= 0 ==> sum <= 2 * out@[k] <= 0
        }),
{
    let n = pcm@.len() as int / 2;
    lemma_converted_frames(pcm@, 2, 1, n);
    let all = converted_frames(pcm@, 2, 1, n);
    let frame = pcm@.subrange(k * 2, (k + 1) * 2);
    assert(all[k * 1 + 0] == converted_frame(frame, 1)[0]);
    let sum = frame[0] + frame[1];
    assert(-0x8000 <= half(sum) <= 0x7fff);
    assert(out@[k] == half(sum));
}

/// In every other case each channel that is there stays in its place, and one that is
/// not is silent.
pub proof fn law_channels_stay_in_place(
    pcm: &[i16],
    from: usize,
    to: usize,
    out: Vec<i16>,
    k: int,
    c: int,
)
    requires
        call_ensures(convert_channels, (pcm, from, to), out),
        from > 0,
        to != 2,
        !(from == 2 && to == 1),
        from != to,
        0 <= k < pcm@.len() as int / from as int,
        0 <= c < to,
    ensures
        out@.len() == (pcm@.len() as int / from as int) * to,
        out@[k * to + c] == if c < from {
            pcm@[k * from + c]
        } else {
            0i16
        },
{
    let n = pcm@.len() as int / from as int;
    lemma_frame_inside(pcm@.len() as int, from as int, k);
    lemma_converted_frames(pcm@, from as int, to as int, n);
    assert(converted_frames(pcm@, from as int, to as int, n)[k * to + c] == converted_frame(
        pcm@.subrange(k * from, (k + 1) * from),
        to as int,
    )[c]);
}

/// Sound that has the channels already is not touched.
pub proof fn law_same_channels_change_nothing(pcm: &[i16], channels: usize, out: Vec<i16>)
    requires
        call_ensures(convert_channels, (pcm, channels, channels), out),
    ensures
        out@ == pcm@,
{
}

/// A 24-bit sample keeps its upper 16 bits: times 256 it is the sample, rounded down.
pub proof fn law_long_samples_keep_their_upper_bits(
    bytes: &[u8],
    num_samples: usize,
    out: Vec<i16>,
    i: int,
)
    requires
        call_ensures(i24_to_i16, (bytes, num_samples), out),
        num_samples * 3 <= usize::MAX,
        0 <= i < num_samples,
    ensures
        out@.len() == num_samples,
        i * 3 + 2 >= bytes@.len() ==> out@[i] == 0,
        i * 3 + 2 < bytes@.len() ==> {
            let raw = bytes@[3 * i] + 256 * bytes@[3 * i + 1] + 65536 * bytes@[3 * i + 2];
            let value = if raw >= 0x80_0000 {
                raw - 0x100_0000
            } else {
                raw
            };
            256 * out@[i] <= value < 256 * out@[i] + 256
        },
{
    assert(out@[i] == sample24(bytes@, i));
}

/// The size of a sample says how it is written.
pub proof fn law_sample_size_says_encoding(format: DeviceFormat, encoding: SampleEncoding)
    requires
        call_ensures(DeviceFormat::encoding, (&format,), encoding),
    ensures
        encoding is Float32 <==> format.bits_per_sample == 32,
        encoding is Int16 <==> format.bits_per_sample == 16,
        encoding is Int24 <==> format.bits_per_sample == 24,
{
}

/// Another rate does not change how long the sound takes, up to one frame.
pub proof fn law_resampling_keeps_the_duration(
    pcm_len: usize,
    channels: usize,
    from_rate: u32,
    to_rate: u32,
    frames: usize,
)
    requires
        call_ensures(resampled_frames, (pcm_len, channels, from_rate, to_rate), frames),
        channels > 0,
        from_rate > 0,
        (pcm_len as int / channels as int) * to_rate / (from_rate as int) <= usize::MAX,
        pcm_len * to_rate <= u64::MAX,
    ensures
        frames * from_rate <= (pcm_len as int / channels as int) * to_rate < (frames + 1)
            * from_rate,
        from_rate == to_rate ==> frames == pcm_len as int / channels as int,
{
    let there = pcm_len as int / channels as int;
    let (x, r) = (there * to_rate, from_rate as int);
    assert(there >= 0) by (nonlinear_arith)
        requires
            there == pcm_len as int / channels as int,
            channels > 0,
    ;
    assert(x >= 0) by (nonlinear_arith)
        requires
            x == there * to_rate,
            there >= 0,
            to_rate >= 0,
    ;
    assert(x / r * r <= x < (x / r + 1) * r) by (nonlinear_arith)
        requires
            r > 0,
            x >= 0,
    ;
    if from_rate == to_rate {
        assert(there * r / r == there) by (nonlinear_arith)
            requires
                r > 0,
        ;
    }
}

/// A place between two frames is heard from the same channel of both; at the end of the
/// sound it is the last sample, and past it nothing.
pub proof fn law_neighbours_are_of_one_channel(
    pcm: &[i16],
    index: usize,
    channels: usize,
    channel: usize,
    pair: (i16, i16),
)
    requires
        call_ensures(neighbours, (pcm, index, channels, channel), pair),
        (index + 1) * channels + channel <= usize::MAX,
        channel < channels,
    ensures
        (index + 2) * channels <= pcm@.len() ==> pair.0 == pcm@[index * channels + channel]
            && pair.1 == pcm@[index * channels + channel + channels],
        (index + 1) * channels == pcm@.len() ==> pair.0 == pcm@[index * channels + channel]
            && pair.1 == pair.0,
        index * channels >= pcm@.len() ==> pair == (0i16, 0i16),
{
    assert((index + 1) * channels == index * channels + channels && (index + 2) * channels == index
        * channels + channels + channels && 0 <= index * channels) by (nonlinear_arith);
}

/// A frame of sound takes 20 milliseconds: fifty of them are a second of every channel.
pub proof fn law_frames_are_a_fiftieth_of_a_second(
    sample_rate: u32,
    channels: u8,
    acc: PcmAccumulator,
)
    requires
        call_ensures(PcmAccumulator::new, (sample_rate, channels), acc),
        sample_rate >= 50,
        channels > 0,
        sample_rate / 50 * channels <= usize::MAX,
    ensures
        acc.samples@.len() == 0,
        sample_rate % 50 == 0 ==> acc.frame_size * 50 == sample_rate * channels,
        acc.frame_size * 50 <= sample_rate * channels < (acc.frame_size + channels) * 50,
        sample_rate == SAMPLE_RATE && channels == CHANNELS ==> acc.frame_size == 1920,
{
    let n = (sample_rate / 50) as int;
    assert(n * 50 <= sample_rate < n * 50 + 50);
    let c = channels as int;
    assert(n * c * 50 == (n * 50) * c) by (nonlinear_arith);
    assert((n * 50) * c <= sample_rate * c) by (nonlinear_arith)
        requires
            n * 50 <= sample_rate,
            c > 0,
    ;
    assert(sample_rate * c < (n * c + c) * 50) by (nonlinear_arith)
        requires
            sample_rate < n * 50 + 50,
            c > 0,
    ;
}

/// Nothing is lost on the way to the encoder: the frames that come out, one after the
/// other, and what still waits are what waited before and what came in; every frame is
/// full, and less than a frame waits.
pub proof fn law_accumulating_loses_nothing(pcm: &[i16])
    ensures
        forall|acc: &mut PcmAccumulator, frames: Vec<Vec<i16>>|
            (*acc).wf() && #[trigger] call_ensures(PcmAccumulator::accumulate, (acc, pcm), frames)
                ==> {
                &&& flat(frames_view(frames@)) + (*final(acc)).samples@ == (*acc).samples@ + pcm@
                &&& (*final(acc)).samples@.len() < (*acc).frame_size
                &&& forall|k: int|
                    0 <= k < frames@.len() ==> (#[trigger] frames@[k])@.len() == (*acc).frame_size
            },
{
    assert forall|acc: &mut PcmAccumulator, frames: Vec<Vec<i16>>|
        (*acc).wf() && #[trigger] call_ensures(PcmAccumulator::accumulate, (acc, pcm), frames)
            implies {
        &&& flat(frames_view(frames@)) + (*final(acc)).samples@ == (*acc).samples@ + pcm@
        &&& (*final(acc)).samples@.len() < (*acc).frame_size
        &&& forall|k: int|
            0 <= k < frames@.len() ==> (#[trigger] frames@[k])@.len() == (*acc).frame_size
    } by {
        let all = (*acc).samples@ + pcm@;
        let size = (*acc).frame_size as int;
        law_frames_hold_every_sample(all, size);
        assert forall|k: int| 0 <= k < frames@.len() implies (#[trigger] frames@[k])@.len()
            == size by {
            assert(frames_view(frames@)[k] == frames_in(all, size)[k]);
        }
    }
}

/// A packet is converted exactly if its channels are not those of the viewer, and what
/// comes out for a pair of ears is even.
pub proof fn law_packets_reach_both_ears(pcm: Vec<i16>, format: DeviceFormat, out: Vec<i16>)
    requires
        call_ensures(to_target_channels, (pcm, format, 2u8), out),
        0 < format.channels < 256,
    ensures
        format.channels == 2 ==> out@ == pcm@,
        format.channels == 1 ==> out@.len() == 2 * pcm@.len(),
        format.channels > 2 ==> out@.len() == 2 * (pcm@.len() as int / format.channels as int),
{
    if format.channels != 2 {
        let n = pcm@.len() as int / format.channels as int;
        assert(n >= 0) by (nonlinear_arith)
            requires
                n == pcm@.len() as int / format.channels as int,
                format.channels > 0,
        ;
        lemma_converted_frames(pcm@, format.channels as int, 2, n);
        if format.channels == 1 {
            assert(pcm@.len() as int / 1 == pcm@.len());
        }
    }
}

/// A chunk holds what the encoder wrote and no more, byte for byte.
pub proof fn law_chunk_is_what_was_encoded(
    buffer: &[u8],
    len: usize,
    sample_rate: u32,
    channels: u8,
    chunk: Option<AudioChunk>,
)
    requires
        call_ensures(finish_chunk, (buffer, Some(len), sample_rate, channels), chunk),
        len <= buffer@.len(),
    ensures
        chunk is Some,
        chunk->0.data@.len() == len,
        forall|i: int| 0 <= i < len ==> chunk->0.data@[i] == buffer@[i],
        chunk->0.sample_rate == sample_rate && chunk->0.channels == channels,
{
}

} // verus!
