//! What a picture looks like, from a few thousand of its pixels.
//!
//! Pictures are in BGRA order, four bytes to a pixel.

use vstd::prelude::*;

verus! {

/// About how many pixels are looked at.
pub const SAMPLES: usize = 4096;

/// The whole pixels of a buffer.
pub open spec fn pixel_count(data: Seq<u8>) -> nat {
    data.len() / 4
}

/// The distance between two pixels that are looked at.
pub open spec fn sample_step(pixels: nat) -> nat {
    if pixels / 4096 > 1 {
        pixels / 4096
    } else {
        1
    }
}

/// How many pixels are looked at.
pub open spec fn sample_count(pixels: nat) -> nat {
    ((pixels + sample_step(pixels) - 1) / sample_step(pixels) as int) as nat
}

/// A pixel counts as black: each of its colours is below 8.
pub open spec fn is_black(data: Seq<u8>, pixel: int) -> bool {
    data[pixel * 4] < 8 && data[pixel * 4 + 1] < 8 && data[pixel * 4 + 2] < 8
}

/// How many of the first `k` pixels that are looked at are black.
pub open spec fn black_among(data: Seq<u8>, step: nat, k: nat) -> nat
    decreases k,
{
    if k == 0 {
        0
    } else {
        black_among(data, step, (k - 1) as nat) + if is_black(data, (k - 1) * step) {
            1nat
        } else {
            0nat
        }
    }
}

/// The sum of one byte of each of the first `k` pixels that are looked at:
/// `channel` 0 is blue, 1 green, 2 red.
pub open spec fn channel_sum(data: Seq<u8>, step: nat, channel: int, k: nat) -> nat
    decreases k,
{
    if k == 0 {
        0
    } else {
        channel_sum(data, step, channel, (k - 1) as nat) + data[(k - 1) * step * 4 + channel] as nat
    }
}

/// The share of black pixels among those looked at, in hundredths.
pub open spec fn black_percent(data: Seq<u8>) -> nat {
    let n = pixel_count(data);
    black_among(data, sample_step(n), sample_count(n)) * 100 / sample_count(n)
}

/// The mean of one colour over the pixels looked at.
pub open spec fn channel_mean(data: Seq<u8>, channel: int) -> nat {
    let n = pixel_count(data);
    channel_sum(data, sample_step(n), channel, sample_count(n)) / sample_count(n)
}

/// At least 995 of 1000 pixels looked at are black.
pub open spec fn is_mostly_black(data: Seq<u8>) -> bool {
    let n = pixel_count(data);
    data.len() >= 4 && black_among(data, sample_step(n), sample_count(n)) * 1000 / sample_count(n)
        >= 995
}

/// What a look at the pixels gave.
#[derive(Debug, Clone, Copy, PartialEq, Eq, Structural)]
pub struct Tally {
    pub sampled: u32,
    pub black: u32,
    pub sum_r: u64,
    pub sum_g: u64,
    pub sum_b: u64,
}

/// The sums and counts stay small.
proof fn lemma_tally_bounds(data: Seq<u8>, step: nat, k: nat)
    ensures
        black_among(data, step, k) <= k,
        channel_sum(data, step, 0, k) <= 255 * k,
        channel_sum(data, step, 1, k) <= 255 * k,
        channel_sum(data, step, 2, k) <= 255 * k,
    decreases k,
{
    if k > 0 {
        lemma_tally_bounds(data, step, (k - 1) as nat);
    }
}

/// Fewer than twice `SAMPLES` pixels are looked at, and at least one of a
/// picture that has any.
proof fn lemma_sample_count(pixels: nat)
    ensures
        sample_count(pixels) <= 2 * 4096,
        pixels > 0 ==> sample_count(pixels) > 0,
{
    let step = sample_step(pixels);
    let n = sample_count(pixels);
    let up = pixels + step - 1;
    assert(n * step <= up < n * step + step) by (nonlinear_arith)
        requires
            step >= 1,
            n == up / (step as int),
            up >= 0,
    ;
    assert(pixels < 8192 * step) by {
        if pixels / 4096 > 1 {
            assert(pixels < 4096 * (pixels / 4096) + 4096);
        }
    }
    assert(n <= 8192) by (nonlinear_arith)
        requires
            n * step <= pixels + step - 1,
            pixels < 8192 * step,
            step >= 1,
    ;
    if pixels > 0 {
        lemma_sample_inside(pixels, 0);
    }
}

/// The pixel with the number `k` among those looked at lies in the picture
/// exactly if fewer than all were looked at before it.
proof fn lemma_sample_inside(pixels: nat, k: nat)
    ensures
        k < sample_count(pixels) <==> k * sample_step(pixels) < pixels,
{
    let step = sample_step(pixels);
    let n = sample_count(pixels);
    let up = pixels + step - 1;
    assert(n * step <= up < n * step + step) by (nonlinear_arith)
        requires
            step >= 1,
            n == up / (step as int),
            up >= 0,
    ;
    if k < n {
        assert(k * step < pixels) by (nonlinear_arith)
            requires
                k <= n - 1,
                n * step <= pixels + step - 1,
                step >= 1,
        ;
    } else {
        assert(k * step >= pixels) by (nonlinear_arith)
            requires
                k >= n,
                pixels + step - 1 < n * step + step,
                step >= 1,
        ;
    }
}

/// Look at the pixels of a picture.
fn tally(data: &[u8]) -> (t: Tally)
    requires
        data@.len() >= 4,
    ensures
        ({
            let n = pixel_count(data@);
            let step = sample_step(n);
            let k = sample_count(n);
            &&& 0 < k <= 2 * 4096
            &&& t.sampled == k
            &&& t.black == black_among(data@, step, k)
            &&& t.black <= t.sampled
            &&& t.sum_b == channel_sum(data@, step, 0, k)
            &&& t.sum_g == channel_sum(data@, step, 1, k)
            &&& t.sum_r == channel_sum(data@, step, 2, k)
            &&& t.sum_b <= 255 * k
            &&& t.sum_g <= 255 * k
            &&& t.sum_r <= 255 * k
        }),
{
    let total: usize = data.len();
    let pixels: usize = total / 4;
    let step: usize = if pixels / SAMPLES > 1 {
        pixels / SAMPLES
    } else {
        1
    };
    let ghost n = pixel_count(data@);
    proof {
        lemma_sample_count(n);
    }
    let mut t = Tally { sampled: 0, black: 0, sum_r: 0, sum_g: 0, sum_b: 0 };
    let mut pixel: usize = 0;
    let mut more = true;
    while more
        invariant
            total == data@.len(),
            pixels == total / 4,
            n == pixels,
            step == sample_step(n),
            step >= 1,
            sample_count(n) <= 2 * 4096,
            sample_count(n) > 0,
            t.sampled <= sample_count(n),
            more ==> pixel == t.sampled * step && pixel < pixels && t.sampled < sample_count(n),
            !more ==> t.sampled == sample_count(n),
            t.black == black_among(data@, step as nat, t.sampled as nat),
            t.sum_b == channel_sum(data@, step as nat, 0, t.sampled as nat),
            t.sum_g == channel_sum(data@, step as nat, 1, t.sampled as nat),
            t.sum_r == channel_sum(data@, step as nat, 2, t.sampled as nat),
        decreases sample_count(n) - t.sampled, more as int,
    {
        let b: u8 = data[pixel * 4];
        let g: u8 = data[pixel * 4 + 1];
        let r: u8 = data[pixel * 4 + 2];
        proof {
            lemma_tally_bounds(data@, step as nat, t.sampled as nat);
        }
        t.sampled = t.sampled + 1;
        t.sum_b = t.sum_b + b as u64;
        t.sum_g = t.sum_g + g as u64;
        t.sum_r = t.sum_r + r as u64;
        if r < 8 && g < 8 && b < 8 {
            t.black = t.black + 1;
        }
        proof {
            let k = t.sampled as nat;
            assert((k - 1) * step + step == k * step) by (nonlinear_arith);
            lemma_sample_inside(n, k);
        }
        if pixels - pixel > step {
            pixel = pixel + step;
        } else {
            more = false;
        }
    }
    proof {
        lemma_tally_bounds(data@, step as nat, t.sampled as nat);
    }
    t
}

/// Whether nearly all pixels of a picture are black. A buffer without a whole
/// pixel is not.
pub fn frame_is_mostly_black(data: &[u8]) -> (black: bool)
    ensures
        black == is_mostly_black(data@),
{
    if data.len() < 4 {
        return false;
    }
    let t = tally(data);
    t.black * 1000 / t.sampled >= 995
}

/// The share of black pixels in hundredths and the mean red, green and blue.
/// All nothing for a buffer without a whole pixel.
pub fn frame_sample_stats(data: &[u8]) -> (stats: (u32, u32, u32, u32))
    ensures
        data@.len() < 4 ==> stats == (0u32, 0u32, 0u32, 0u32),
        data@.len() >= 4 ==> {
            &&& stats.0 == black_percent(data@)
            &&& stats.1 == channel_mean(data@, 2)
            &&& stats.2 == channel_mean(data@, 1)
            &&& stats.3 == channel_mean(data@, 0)
        },
{
    if data.len() < 4 {
        return (0, 0, 0, 0);
    }
    let t = tally(data);
    let n: u64 = t.sampled as u64;
    proof {
        lemma_mean_is_small(t.sum_r, n);
        lemma_mean_is_small(t.sum_g, n);
        lemma_mean_is_small(t.sum_b, n);
    }
    (
        t.black * 100 / t.sampled,
        (t.sum_r / n) as u32,
        (t.sum_g / n) as u32,
        (t.sum_b / n) as u32,
    )
}

/// The mean of bytes is a byte.
proof fn lemma_mean_is_small(sum: u64, n: u64)
    requires
        n > 0,
        sum <= 255 * n,
    ensures
        sum / n <= 255,
{
    assert(sum / n <= 255) by (nonlinear_arith)
        requires
            n > 0,
            sum <= 255 * n,
    ;
}

/// What a capture probe found in a frame.
#[derive(Debug, Clone, Copy, PartialEq, Eq, Structural)]
pub struct FrameProbeStats {
    pub black_pct: u32,
    pub mean_r: u32,
    pub mean_g: u32,
    pub mean_b: u32,
}

impl FrameProbeStats {
    /// Whether the frame shows nothing.
    pub fn is_mostly_black(&self) -> (black: bool)
        ensures
            black == (self.black_pct >= 99 && self.mean_r < 8 && self.mean_g < 8 && self.mean_b
                < 8),
    {
        self.black_pct >= 99 && self.mean_r < 8 && self.mean_g < 8 && self.mean_b < 8
    }
}

/// What a frame shows. A buffer without a whole pixel is all black.
pub fn frame_probe_stats(data: &[u8]) -> (stats: FrameProbeStats)
    ensures
        data@.len() < 4 ==> stats == (FrameProbeStats {
            black_pct: 100,
            mean_r: 0,
            mean_g: 0,
            mean_b: 0,
        }),
        data@.len() >= 4 ==> {
            &&& stats.black_pct == black_percent(data@)
            &&& stats.mean_r == channel_mean(data@, 2)
            &&& stats.mean_g == channel_mean(data@, 1)
            &&& stats.mean_b == channel_mean(data@, 0)
        },
{
    if data.len() < 4 {
        return FrameProbeStats { black_pct: 100, mean_r: 0, mean_g: 0, mean_b: 0 };
    }
    let (black_pct, mean_r, mean_g, mean_b) = frame_sample_stats(data);
    FrameProbeStats { black_pct, mean_r, mean_g, mean_b }
}

/// A picture in which every pixel is black is mostly black, and its black
/// share is the whole.
pub proof fn law_all_black_is_mostly_black(data: Seq<u8>)
    requires
        data.len() >= 4,
        forall|p: int| 0 <= p < pixel_count(data) ==> is_black(data, p),
    ensures
        is_mostly_black(data),
        black_percent(data) == 100,
{
    let n = pixel_count(data);
    lemma_sample_count(n);
    lemma_sample_inside(n, (sample_count(n) - 1) as nat);
    lemma_all_black_among(data, sample_step(n), sample_count(n));
    let k = sample_count(n);
    assert(k * 1000 / k == 1000) by (nonlinear_arith)
        requires
            k > 0,
    ;
    assert(k * 100 / k == 100) by (nonlinear_arith)
        requires
            k > 0,
    ;
}

/// Every pixel that is looked at is black when all are.
proof fn lemma_all_black_among(data: Seq<u8>, step: nat, k: nat)
    requires
        forall|p: int| 0 <= p < pixel_count(data) ==> is_black(data, p),
        k > 0 ==> (k - 1) * step < pixel_count(data),
    ensures
        black_among(data, step, k) == k,
    decreases k,
{
    if k > 0 {
        assert((k - 1) * step >= 0) by (nonlinear_arith)
            requires
                k >= 1,
                step >= 0,
        ;
        if k > 1 {
            assert((k - 2) * step <= (k - 1) * step) by (nonlinear_arith)
                requires
                    step >= 0,
            ;
        }
        lemma_all_black_among(data, step, (k - 1) as nat);
        assert(is_black(data, (k - 1) * step));
    }
}

/// A picture that shows something is not taken for a black one: where it is, no more
/// than one in two hundred of the pixels looked at is not black. One of whose pixels
/// looked at at least one in a hundred is not black never is.
pub proof fn law_mostly_black_shows_nothing(data: Seq<u8>)
    requires
        data.len() >= 4,
    ensures
        ({
            let n = pixel_count(data);
            let sampled = sample_count(n);
            let black = black_among(data, sample_step(n), sampled);
            &&& black <= sampled
            &&& is_mostly_black(data) ==> 200 * (sampled - black) <= sampled
            &&& 100 * (sampled - black) >= sampled ==> !is_mostly_black(data)
            &&& 1000 * (sampled - black) <= 5 * sampled ==> is_mostly_black(data)
        }),
{
    let n = pixel_count(data);
    let k = sample_count(n);
    let black = black_among(data, sample_step(n), k);
    lemma_sample_count(n);
    lemma_tally_bounds(data, sample_step(n), k);
    let share = black * 1000 / k;
    assert(share * k <= black * 1000 < share * k + k) by (nonlinear_arith)
        requires
            k > 0,
            black >= 0,
            share == black * 1000 / k,
    ;
    if share >= 995 {
        assert(995 * k <= share * k) by (nonlinear_arith)
            requires
                share >= 995,
                k > 0,
        ;
    } else {
        assert(share * k + k <= 995 * k) by (nonlinear_arith)
            requires
                share + 1 <= 995,
                k > 0,
        ;
    }
}

/// A picture without any black pixel shows something, and has no black share.
pub proof fn law_bright_picture_is_not_black(data: Seq<u8>)
    requires
        data.len() >= 4,
        forall|p: int| 0 <= p < pixel_count(data) ==> !is_black(data, p),
    ensures
        !is_mostly_black(data),
        black_percent(data) == 0,
{
    let n = pixel_count(data);
    let k = sample_count(n);
    lemma_sample_count(n);
    lemma_sample_inside(n, (k - 1) as nat);
    lemma_no_black_among(data, sample_step(n), k);
    assert(0int / k as int == 0) by (nonlinear_arith)
        requires
            k > 0,
    ;
}

/// No pixel that is looked at is black when none is.
proof fn lemma_no_black_among(data: Seq<u8>, step: nat, k: nat)
    requires
        forall|p: int| 0 <= p < pixel_count(data) ==> !is_black(data, p),
        k > 0 ==> (k - 1) * step < pixel_count(data),
    ensures
        black_among(data, step, k) == 0,
    decreases k,
{
    if k > 0 {
        assert((k - 1) * step >= 0) by (nonlinear_arith)
            requires
                k >= 1,
                step >= 0,
        ;
        if k > 1 {
            assert((k - 2) * step <= (k - 1) * step) by (nonlinear_arith)
                requires
                    step >= 0,
            ;
        }
        lemma_no_black_among(data, step, (k - 1) as nat);
        assert(!is_black(data, (k - 1) * step));
    }
}

/// Black is darkness in every colour: what is below 8 in blue, green and red is black,
/// and one colour of 8 or more is enough to be seen. How opaque it is does not matter.
pub proof fn law_black_is_dark_in_every_colour(data: Seq<u8>, pixel: int, opacity: u8)
    requires
        0 <= pixel < pixel_count(data),
    ensures
        is_black(data, pixel) <==> forall|c: int|
            0 <= c < 3 ==> (#[trigger] data[4 * pixel + c]) < 8,
        is_black(data, pixel) == is_black(data.update(4 * pixel + 3, opacity), pixel),
{
    if is_black(data, pixel) {
        assert forall|c: int| 0 <= c < 3 implies (#[trigger] data[4 * pixel + c]) < 8 by {
            if c == 0 {
            } else if c == 1 {
            } else {
            }
        }
    } else {
        assert(!(data[4 * pixel + 0] < 8) || !(data[4 * pixel + 1] < 8) || !(data[4 * pixel + 2]
            < 8));
    }
}

/// The pixels looked at are spread over the whole picture: they lie in it, each at its
/// own place, the next one would lie outside, and there are at least 4096 of them where
/// the picture has as many and fewer than twice that.
pub proof fn law_samples_cover_the_picture(pixels: nat)
    requires
        pixels > 0,
    ensures
        sample_step(pixels) >= 1,
        (sample_count(pixels) - 1) * sample_step(pixels) < pixels,
        sample_count(pixels) * sample_step(pixels) >= pixels,
        pixels >= 4096 ==> 4096 <= sample_count(pixels) <= 8192,
        pixels < 8192 ==> sample_count(pixels) == pixels,
{
    let k = sample_count(pixels);
    let step = sample_step(pixels);
    lemma_sample_count(pixels);
    lemma_sample_inside(pixels, k);
    lemma_sample_inside(pixels, (k - 1) as nat);
    if pixels >= 4096 {
        lemma_sample_inside(pixels, 4095);
        assert(4096 * step <= pixels) by {
            if pixels / 4096 > 1 {
                assert(4096 * (pixels / 4096) <= pixels);
            }
        }
        assert(4095 * step < pixels);
    }
    if pixels < 8192 {
        assert(step == 1);
        assert((pixels + 1 - 1) / 1 == pixels);
    }
}

/// A picture of one colour has that colour for its mean, channel by channel.
pub proof fn law_mean_of_one_colour(data: Seq<u8>, channel: int, value: u8)
    requires
        data.len() >= 4,
        0 <= channel < 3,
        forall|p: int| 0 <= p < pixel_count(data) ==> #[trigger] data[p * 4 + channel] == value,
    ensures
        channel_mean(data, channel) == value,
{
    let n = pixel_count(data);
    let k = sample_count(n);
    lemma_sample_count(n);
    lemma_sample_inside(n, (k - 1) as nat);
    lemma_sum_of_one_colour(data, sample_step(n), channel, value, k);
    assert(value * k / (k as int) == value) by (nonlinear_arith)
        requires
            k > 0,
    ;
}

proof fn lemma_sum_of_one_colour(data: Seq<u8>, step: nat, channel: int, value: u8, k: nat)
    requires
        forall|p: int| 0 <= p < pixel_count(data) ==> #[trigger] data[p * 4 + channel] == value,
        k > 0 ==> (k - 1) * step < pixel_count(data),
    ensures
        channel_sum(data, step, channel, k) == value * k,
    decreases k,
{
    if k > 0 {
        assert((k - 1) * step >= 0) by (nonlinear_arith)
            requires
                k >= 1,
                step >= 0,
        ;
        if k > 1 {
            assert((k - 2) * step <= (k - 1) * step) by (nonlinear_arith)
                requires
                    step >= 0,
            ;
        }
        lemma_sum_of_one_colour(data, step, channel, value, (k - 1) as nat);
        let p = (k - 1) * step;
        assert(data[p * 4 + channel] == value);
        assert(value * k == value * (k - 1) + value) by (nonlinear_arith);
    } else {
        assert(value * 0 == 0) by (nonlinear_arith);
    }
}

/// What is said of a picture is what was seen: it is called mostly black only if no more
/// than one in two hundred of the pixels looked at can be seen, and the mean red, green
/// and blue of a picture of one colour are that colour's.
pub proof fn law_answers_fit_the_picture(
    data: &[u8],
    black: bool,
    stats: (u32, u32, u32, u32),
    probe: FrameProbeStats,
    b: u8,
    g: u8,
    r: u8,
)
    requires
        data@.len() >= 4,
        call_ensures(frame_is_mostly_black, (data,), black),
        call_ensures(frame_sample_stats, (data,), stats),
        call_ensures(frame_probe_stats, (data,), probe),
    ensures
        ({
            let n = pixel_count(data@);
            let sampled = sample_count(n);
            let dark = black_among(data@, sample_step(n), sampled);
            &&& black ==> 200 * (sampled - dark) <= sampled
            &&& 1000 * (sampled - dark) <= 5 * sampled ==> black
            &&& stats.0 * sampled <= 100 * dark < (stats.0 + 1) * sampled
        }),
        probe.black_pct == stats.0,
        (forall|p: int|
            0 <= p < data@.len() as int / 4 ==> (#[trigger] data@[p * 4 + 0] == b && data@[p * 4
                + 1] == g && data@[p * 4 + 2] == r)) ==> {
            &&& stats.1 == r && stats.2 == g && stats.3 == b
            &&& probe.mean_r == r && probe.mean_g == g && probe.mean_b == b
        },
{
    law_mostly_black_shows_nothing(data@);
    let n = pixel_count(data@);
    let k = sample_count(n);
    let dark = black_among(data@, sample_step(n), k);
    lemma_sample_count(n);
    let share = dark * 100 / k;
    assert(share * k <= dark * 100 < (share + 1) * k) by (nonlinear_arith)
        requires
            k > 0,
            dark >= 0,
            share == dark * 100 / k,
    ;
    if forall|p: int|
        0 <= p < data@.len() as int / 4 ==> (#[trigger] data@[p * 4 + 0] == b && data@[p * 4 + 1]
            == g && data@[p * 4 + 2] == r) {
        assert forall|p: int| 0 <= p < n implies #[trigger] data@[p * 4 + 0] == b by {}
        assert forall|p: int| 0 <= p < n implies #[trigger] data@[p * 4 + 1] == g by {
            assert(data@[p * 4 + 0] == b);
        }
        assert forall|p: int| 0 <= p < n implies #[trigger] data@[p * 4 + 2] == r by {
            assert(data@[p * 4 + 0] == b);
        }
        law_mean_of_one_colour(data@, 0, b);
        law_mean_of_one_colour(data@, 1, g);
        law_mean_of_one_colour(data@, 2, r);
    }
}

/// A trial frame shows nothing only if it is nearly all black and dark in every colour.
pub proof fn law_dark_frame_shows_nothing(stats: FrameProbeStats, black: bool)
    requires
        call_ensures(FrameProbeStats::is_mostly_black, (&stats,), black),
    ensures
        black ==> stats.black_pct > 98 && stats.mean_r <= 7 && stats.mean_g <= 7 && stats.mean_b
            <= 7,
        stats.black_pct == 100 && stats.mean_r == 0 && stats.mean_g == 0 && stats.mean_b == 0
            ==> black,
        !black ==> stats.black_pct < 99 || stats.mean_r >= 8 || stats.mean_g >= 8 || stats.mean_b
            >= 8,
{
}

} // verus!
