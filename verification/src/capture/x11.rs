//! Capture of an X11 window with `XGetImage`.

use crate::capture::rows;
use vstd::prelude::*;

verus! {

/// Why an image could not be used.
#[derive(Debug, Clone, Copy, PartialEq, Eq, Structural)]
pub enum XImageError {
    /// The image is larger than memory.
    SizeOverflow,
    /// The image has this many bits per pixel, neither 24 nor 32.
    UnsupportedDepth { bits_per_pixel: i32 },
}

/// How many bytes an image has whose lines take `bytes_per_line`. A negative
/// line length counts as none.
pub fn raw_len(bytes_per_line: i32, height: u32) -> (out: Result<usize, XImageError>)
    ensures
        ({
            let line = if bytes_per_line < 0 {
                0
            } else {
                bytes_per_line as int
            };
            match out {
                Ok(len) => len == line * height,
                Err(e) => e == XImageError::SizeOverflow && line * height > usize::MAX,
            }
        }),
{
    let line: usize = if bytes_per_line < 0 {
        0
    } else {
        bytes_per_line as usize
    };
    match line.checked_mul(height as usize) {
        Some(len) => Ok(len),
        None => Err(XImageError::SizeOverflow),
    }
}

/// The pixels of `line` (three bytes each) with a fourth byte of zero.
pub open spec fn widened(line: Seq<u8>) -> Seq<u8>
    decreases line.len(),
{
    if line.len() < 3 {
        Seq::empty()
    } else {
        let last = line.len() - 3;
        widened(line.take(last)) + seq![line[last], line[last + 1], line[last + 2], 0u8]
    }
}

/// The pixels of an image, four bytes each, in blue, green, red order.
pub open spec fn image_pixels(
    raw: Seq<u8>,
    bytes_per_line: nat,
    bits_per_pixel: i32,
    width: nat,
    height: nat,
) -> Seq<u8> {
    if bits_per_pixel == 32 {
        rows::packed(raw, bytes_per_line, width * 4, height)
    } else {
        widened(rows::packed(raw, bytes_per_line, width * 3, height))
    }
}

/// Bytes that a row of `width` pixels takes.
pub open spec fn row_len(bits_per_pixel: i32, width: nat) -> nat {
    if bits_per_pixel == 32 {
        width * 4
    } else {
        width * 3
    }
}

/// Append `line` with a zero byte after every third.
fn append_widened(out: &mut Vec<u8>, line: &[u8])
    requires
        line@.len() % 3 == 0,
    ensures
        final(out)@ == old(out)@ + widened(line@),
{
    let mut i: usize = 0;
    let ghost before = out@;
    assert(out@ =~= before + widened(line@.take(0)));
    while i < line.len()
        invariant
            line@.len() % 3 == 0,
            i % 3 == 0,
            i <= line@.len(),
            out@ == before + widened(line@.take(i as int)),
        decreases line@.len() - i,
    {
        out.push(line[i]);
        out.push(line[i + 1]);
        out.push(line[i + 2]);
        out.push(0);
        i += 3;
        proof {
            let part = line@.take(i as int);
            assert(part.take(i - 3) =~= line@.take(i - 3));
            assert(widened(part) =~= widened(part.take(i - 3)) + seq![
                part[i - 3],
                part[i - 2],
                part[i - 1],
                0u8,
            ]);
            assert(out@ =~= before + widened(part));
        }
    }
    assert(line@.take(line@.len() as int) =~= line@);
}

/// The pixels of an image as four bytes each.
pub fn unpack_image(
    raw: &[u8],
    bytes_per_line: usize,
    bits_per_pixel: i32,
    width: u32,
    height: u32,
) -> (out: Result<Vec<u8>, XImageError>)
    requires
        width * 4 <= usize::MAX,
        bits_per_pixel == 32 || bits_per_pixel == 24 ==> rows::rows_fit(
            raw@.len(),
            bytes_per_line as nat,
            row_len(bits_per_pixel, width as nat),
            height as nat,
        ),
    ensures
        match out {
            Ok(pixels) => {
                &&& bits_per_pixel == 32 || bits_per_pixel == 24
                &&& pixels@ == image_pixels(
                    raw@,
                    bytes_per_line as nat,
                    bits_per_pixel,
                    width as nat,
                    height as nat,
                )
            },
            Err(e) => {
                &&& bits_per_pixel != 32 && bits_per_pixel != 24
                &&& e == XImageError::UnsupportedDepth { bits_per_pixel }
            },
        },
{
    if bits_per_pixel == 32 {
        return Ok(rows::pack_rows(raw, bytes_per_line, width as usize * 4, height as usize));
    }
    if bits_per_pixel != 24 {
        return Err(XImageError::UnsupportedDepth { bits_per_pixel });
    }
    let row_bytes: usize = width as usize * 3;
    let lines = rows::pack_rows(raw, bytes_per_line, row_bytes, height as usize);
    proof {
        rows::law_packed_keeps_pixels(
            raw@,
            bytes_per_line as nat,
            row_bytes as nat,
            height as nat,
            0,
            0,
        );
        let (w, h) = (width as int, height as int);
        assert(h * (w * 3) == (h * w) * 3) by (nonlinear_arith);
        assert(((h * w) * 3) % 3 == 0);
    }
    let mut out: Vec<u8> = Vec::new();
    append_widened(&mut out, lines.as_slice());
    assert(out@ =~= widened(lines@));
    Ok(out)
}

/// Attributes of a window.
#[derive(Debug, Clone, Copy, PartialEq, Eq, Structural)]
pub struct WindowAttributes {
    pub window: u64,
    /// It can show something, and does.
    pub viewable: bool,
    pub x: i32,
    pub y: i32,
    pub width: i32,
    pub height: i32,
}

/// The window may stand for the desktop of this size: it can be seen, it
/// covers the corner of the screen, and it covers three quarters of the screen
/// each way.
pub open spec fn covers_desktop(w: WindowAttributes, width: u32, height: u32) -> bool {
    &&& w.viewable
    &&& w.width > 0
    &&& w.height > 0
    &&& w.x <= 0
    &&& w.y <= 0
    &&& w.width >= three_quarters(width)
    &&& w.height >= three_quarters(height)
}

/// Three times `size`, as far as 32 bits reach, divided by four.
pub open spec fn three_quarters(size: u32) -> int {
    (if size * 3 > u32::MAX {
        u32::MAX as int
    } else {
        size * 3
    }) / 4
}

/// Three times `size`, as far as 32 bits reach, divided by four.
fn quarter_of_triple(size: u32) -> (out: u32)
    ensures
        out == three_quarters(size),
{
    if size > 0xffff_ffff / 3 {
        0xffff_ffff / 4
    } else {
        size * 3 / 4
    }
}

/// No window may stand for the desktop of this size.
pub open spec fn none_covers_desktop(
    windows: Seq<WindowAttributes>,
    width: u32,
    height: u32,
) -> bool {
    forall|j: int|
        0 <= j < windows.len() ==> !covers_desktop(#[trigger] windows[j], width, height)
}

/// The area of a window.
pub open spec fn area(w: WindowAttributes) -> int {
    w.width * w.height
}

/// The window that stands for the desktop: the largest that may, and the first
/// of those. `windows` are in stacking order.
pub fn find_desktop_drawable(windows: &[WindowAttributes], width: u32, height: u32) -> (best: Option<
    u64,
>)
    ensures
        match best {
            Some(id) => exists|i: int|
                #![trigger windows@[i]]
                0 <= i < windows@.len() && {
                    &&& windows@[i].window == id
                    &&& covers_desktop(windows@[i], width, height)
                    &&& forall|j: int|
                        0 <= j < windows@.len() && covers_desktop(
                            #[trigger] windows@[j],
                            width,
                            height,
                        ) ==> area(windows@[j]) <= area(windows@[i]) && (j < i ==> area(windows@[j])
                            < area(windows@[i]))
                },
            None => forall|j: int|
                0 <= j < windows@.len() ==> !covers_desktop(#[trigger] windows@[j], width, height),
        },
        best is None ==> none_covers_desktop(windows@, width, height),
{
    let mut best: Option<usize> = None;
    let mut best_area: i64 = 0;
    let min_width: u32 = quarter_of_triple(width);
    let min_height: u32 = quarter_of_triple(height);
    let mut i: usize = 0;
    while i < windows.len()
        invariant
            i <= windows@.len(),
            min_width == three_quarters(width),
            min_height == three_quarters(height),
            match best {
                Some(b) => {
                    &&& b < i
                    &&& covers_desktop(windows@[b as int], width, height)
                    &&& best_area == area(windows@[b as int])
                    &&& forall|j: int|
                        0 <= j < i && covers_desktop(#[trigger] windows@[j], width, height)
                            ==> area(windows@[j]) <= best_area && (j < b ==> area(windows@[j])
                            < best_area)
                },
                None => {
                    &&& best_area == 0
                    &&& forall|j: int|
                        0 <= j < i ==> !covers_desktop(#[trigger] windows@[j], width, height)
                },
            },
        decreases windows@.len() - i,
    {
        let w = windows[i];
        let eligible = w.viewable && w.width > 0 && w.height > 0 && w.x <= 0 && w.y <= 0 && w.width
            as u32 >= min_width && w.height as u32 >= min_height;
        if eligible {
            proof {
                let (a, b) = (w.width as int, w.height as int);
                assert(0 < a * b <= 0x7fff_ffff * 0x7fff_ffff) by (nonlinear_arith)
                    requires
                        0 < a <= 0x7fff_ffff,
                        0 < b <= 0x7fff_ffff,
                ;
            }
            let size: i64 = w.width as i64 * w.height as i64;
            if size > best_area {
                best = Some(i);
                best_area = size;
            }
        }
        i += 1;
    }
    match best {
        Some(b) => Some(windows[b].window),
        None => None,
    }
}

/// The part of a screen that is captured: no more than there is.
pub fn capture_size(width: u32, height: u32, screen_width: i32, screen_height: i32) -> (size: (
    u32,
    u32,
))
    ensures
        size.0 == if width < at_least_one(screen_width) {
            width as int
        } else {
            at_least_one(screen_width)
        },
        size.1 == if height < at_least_one(screen_height) {
            height as int
        } else {
            at_least_one(screen_height)
        },
{
    let w: u32 = if screen_width < 1 {
        1
    } else {
        screen_width as u32
    };
    let h: u32 = if screen_height < 1 {
        1
    } else {
        screen_height as u32
    };
    (
        if width < w {
            width
        } else {
            w
        },
        if height < h {
            height
        } else {
            h
        },
    )
}

/// `x`, but one at least.
pub open spec fn at_least_one(x: i32) -> int {
    if x < 1 {
        1
    } else {
        x as int
    }
}

proof fn lemma_widened(line: Seq<u8>, p: int)
    requires
        line.len() % 3 == 0,
    ensures
        widened(line).len() * 3 == line.len() * 4,
        0 <= p && p * 3 < line.len() ==> widened(line)[p * 4] == line[p * 3] && widened(line)[p * 4
            + 1] == line[p * 3 + 1] && widened(line)[p * 4 + 2] == line[p * 3 + 2] && widened(
            line,
        )[p * 4 + 3] == 0,
    decreases line.len(),
{
    if line.len() >= 3 {
        let last = line.len() - 3;
        let before = line.take(last);
        lemma_widened(before, p);
        if 0 <= p && p * 3 < line.len() {
            if p * 3 < last {
                assert(before[p * 3] == line[p * 3]);
                assert(before[p * 3 + 1] == line[p * 3 + 1]);
                assert(before[p * 3 + 2] == line[p * 3 + 2]);
                assert(p * 4 + 3 < widened(before).len());
            } else {
                assert(p * 3 == last);
                assert(p * 4 == widened(before).len());
            }
        }
    }
}

/// A picture of three or four bytes to a pixel keeps the colours of every pixel in place,
/// and those of three get a fourth of zero; any other depth is refused.
pub proof fn law_image_keeps_its_colours(
    raw: &[u8],
    bytes_per_line: usize,
    bits: i32,
    width: u32,
    height: u32,
    out: Result<Vec<u8>, XImageError>,
    x: int,
    y: int,
    c: int,
)
    requires
        width * 4 <= usize::MAX,
        bits == 32 || bits == 24 ==> rows::rows_fit(
            raw@.len(),
            bytes_per_line as nat,
            row_len(bits, width as nat),
            height as nat,
        ),
        call_ensures(unpack_image, (raw, bytes_per_line, bits, width, height), out),
        0 <= x < width,
        0 <= y < height,
        0 <= c < 3,
    ensures
        out is Ok <==> bits == 24 || bits == 32,
        out is Err ==> out == Err::<Vec<u8>, _>(
            XImageError::UnsupportedDepth { bits_per_pixel: bits },
        ),
        bits == 32 ==> out->Ok_0@[(y * width + x) * 4 + c] == raw@[y * bytes_per_line + x * 4 + c],
        bits == 24 ==> out->Ok_0@[(y * width + x) * 4 + c] == raw@[y * bytes_per_line + x * 3 + c]
            && out->Ok_0@[(y * width + x) * 4 + 3] == 0,
{
    let (w, h, line) = (width as nat, height as nat, bytes_per_line as nat);
    if bits == 32 {
        rows::law_packed_keeps_pixels(raw@, line, w * 4, h, x * 4 + c, y);
        assert(y * (w * 4) + (x * 4 + c) == (y * width + x) * 4 + c) by (nonlinear_arith)
            requires
                w == width,
        ;
    } else if bits == 24 {
        let packed = rows::packed(raw@, line, w * 3, h);
        rows::law_packed_keeps_pixels(raw@, line, w * 3, h, x * 3 + c, y);
        rows::law_packed_keeps_pixels(raw@, line, w * 3, h, x * 3, y);
        let p = y * width + x;
        assert(y * (w * 3) + (x * 3 + c) == p * 3 + c) by (nonlinear_arith)
            requires
                w == width,
                p == y * width + x,
        ;
        assert(y * (w * 3) + x * 3 == p * 3) by (nonlinear_arith)
            requires
                w == width,
                p == y * width + x,
        ;
        assert(h * (w * 3) == (h * w) * 3) by (nonlinear_arith);
        assert(0 <= p) by (nonlinear_arith)
            requires
                p == y * width + x,
                0 <= x,
                0 <= y,
        ;
        lemma_widened(packed, p);
    }
}

/// An image has as many bytes as its lines have together, or is too large.
pub proof fn law_image_length(line: i32, height: u32, out: Result<usize, XImageError>)
    requires
        call_ensures(raw_len, (line, height), out),
    ensures
        line <= 0 ==> out == Ok::<usize, XImageError>(0),
        line > 0 && line * height <= usize::MAX ==> (out matches Ok(n) && n == line * height),
        line > 0 && line * height > usize::MAX ==> out == Err::<usize, _>(
            XImageError::SizeOverflow,
        ),
{
    assert(0 * height == 0);
}

/// The window that is found for the desktop is seen, reaches the corner and three quarters
/// of the screen each way, and no other such window is larger; one is found wherever there
/// is one.
pub proof fn law_desktop_is_the_largest_window(
    windows: &[WindowAttributes],
    width: u32,
    height: u32,
    best: Option<u64>,
    j: int,
)
    requires
        call_ensures(find_desktop_drawable, (windows, width, height), best),
        0 <= j < windows@.len(),
        windows@[j].viewable,
        windows@[j].x <= 0,
        windows@[j].y <= 0,
        windows@[j].width > 0,
        windows@[j].height > 0,
        4 * windows@[j].width >= 3 * width,
        4 * windows@[j].height >= 3 * height,
    ensures
        best is Some,
        exists|i: int|
            0 <= i < windows@.len() && (#[trigger] windows@[i]).window == best->0
                && windows@[i].viewable && windows@[i].x <= 0 && windows@[i].y <= 0 && area(
                windows@[j],
            ) <= area(windows@[i]),
{
    assert(covers_desktop(windows@[j], width, height));
    assert(best is Some);
}

/// Windows that are hidden, away from the corner or smaller than three quarters of the
/// screen do not stand for the desktop.
pub proof fn law_small_windows_are_no_desktop(
    windows: &[WindowAttributes],
    width: u32,
    height: u32,
    best: Option<u64>,
)
    requires
        call_ensures(find_desktop_drawable, (windows, width, height), best),
        width * 3 <= u32::MAX,
        height * 3 <= u32::MAX,
        forall|j: int|
            0 <= j < windows@.len() ==> {
                let w = #[trigger] windows@[j];
                !w.viewable || w.x > 0 || w.y > 0 || 4 * w.width + 3 < 3 * width || 4 * w.height + 3
                    < 3 * height
            },
    ensures
        best is None,
{
    assert(forall|j: int|
        0 <= j < windows@.len() ==> !covers_desktop(#[trigger] windows@[j], width, height));
}

/// No more of a screen is captured than there is and than was asked for, and all of the
/// smaller of the two.
pub proof fn law_capture_fits_the_screen(
    width: u32,
    height: u32,
    screen_width: i32,
    screen_height: i32,
    size: (u32, u32),
)
    requires
        screen_width >= 1,
        screen_height >= 1,
        call_ensures(capture_size, (width, height, screen_width, screen_height), size),
    ensures
        size.0 <= width && size.0 <= screen_width,
        size.0 == width || size.0 == screen_width,
        size.1 <= height && size.1 <= screen_height,
        size.1 == height || size.1 == screen_height,
{
}

} // verus!
