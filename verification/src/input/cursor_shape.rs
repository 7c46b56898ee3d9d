//! The picture of the mouse pointer, as a viewer draws it.
//!
//! The system draws the pointer as blue, green, red and alpha; viewers take red
//! first. Old pointers come without alpha and are cut out by a mask instead.
//! Pointers that are nearly white get a dark edge, so that they can be seen on
//! a light page.

use crate::bytes;
use crate::protocol::CursorShape;
use std::collections::hash_map::DefaultHasher;
use std::hash::Hasher;
use vstd::arithmetic::div_mod::lemma_fundamental_div_mod_converse;
use vstd::prelude::*;
use vstd::std_specs::hash::DefaultHasherAdditionalSpecFns;

verus! {

/// The largest pointer that is sent, in pixels along a side.
pub const MAX_SIDE: u32 = 256;

/// A bitmap's size as the system says it: a negative height is one that is
/// stored from the top.
#[derive(Debug, Clone, Copy, PartialEq, Eq, Structural)]
pub struct BitmapSize {
    pub width: i32,
    pub height: i32,
}

pub open spec fn magnitude(n: i32) -> int {
    if n < 0 {
        -n
    } else {
        n as int
    }
}

pub open spec fn at_least(n: i32, low: int) -> int {
    if n < low {
        low
    } else {
        n as int
    }
}

/// The size of a pointer by its bitmap. A pointer without colours has one bitmap
/// with two masks, one above the other.
pub fn cursor_bitmap_size(bitmap: Option<BitmapSize>, has_color: bool) -> (size: Option<(u32, u32)>)
    ensures
        size == match bitmap {
            Some(b) => Some(
                (
                    at_least(b.width, 0) as u32,
                    if has_color {
                        magnitude(b.height) as u32
                    } else {
                        (magnitude(b.height) / 2) as u32
                    },
                ),
            ),
            None => None,
        },
{
    match bitmap {
        Some(b) => {
            let width: u32 = if b.width < 0 {
                0
            } else {
                b.width as u32
            };
            let height: u32 = unsigned(b.height);
            Some(
                (
                    width,
                    if has_color {
                        height
                    } else {
                        height / 2
                    },
                ),
            )
        },
        None => None,
    }
}

fn unsigned(n: i32) -> (size: u32)
    ensures
        size == magnitude(n),
{
    if n < 0 {
        (-(n as i64)) as u32
    } else {
        n as u32
    }
}

/// The size to draw a pointer at: that of its bitmap or, where that is not
/// known, the one that the system has for pointers. Nothing if it is empty or
/// too large to send.
pub fn shape_size(bitmap: Option<(u32, u32)>, system: (i32, i32)) -> (size: Option<(u32, u32)>)
    ensures
        ({
            let asked = match bitmap {
                Some(b) => b,
                None => (at_least(system.0, 1) as u32, at_least(system.1, 1) as u32),
            };
            size == if 0 < asked.0 <= MAX_SIDE && 0 < asked.1 <= MAX_SIDE {
                Some(asked)
            } else {
                None
            }
        }),
{
    let asked: (u32, u32) = match bitmap {
        Some(b) => b,
        None => {
            let w: i32 = if system.0 < 1 {
                1
            } else {
                system.0
            };
            let h: i32 = if system.1 < 1 {
                1
            } else {
                system.1
            };
            (w as u32, h as u32)
        },
    };
    if asked.0 == 0 || asked.1 == 0 || asked.0 > MAX_SIDE || asked.1 > MAX_SIDE {
        None
    } else {
        Some(asked)
    }
}

/// A pixel's colours all lie in the upper half, as far as there is such a pixel.
pub open spec fn white(bgra: Seq<u8>, p: int) -> bool {
    &&& p * 4 + 3 <= bgra.len()
    &&& bgra[p * 4] > 127
    &&& bgra[p * 4 + 1] > 127
    &&& bgra[p * 4 + 2] > 127
}

/// Whether the mask cuts out the pixel at `x`, `y`. The mask is stored from the
/// bottom. Without colours its lower half inverts what is below the pointer, and
/// a pixel that inverts is not cut out.
pub open spec fn cut_out(
    mask: Seq<u8>,
    width: int,
    height: int,
    mask_height: int,
    has_color: bool,
    x: int,
    y: int,
) -> bool {
    &&& white(mask, (mask_height - 1 - y) * width + x)
    &&& has_color || !white(mask, (mask_height - 1 - (y + height)) * width + x)
}

/// The pixel at `x`, `y` of a picture that is `width` pixels wide.
pub open spec fn at(width: int, x: int, y: int) -> int {
    y * width + x
}

proof fn lemma_at(width: int, height: int, x: int, y: int)
    requires
        0 <= x < width,
        0 <= y < height,
    ensures
        0 <= at(width, x, y) < width * height,
        at(width, x, y) / width == y,
        at(width, x, y) % width == x,
{
    assert(0 <= y * width) by (nonlinear_arith)
        requires
            0 <= y,
            0 <= width,
    ;
    assert(y * width + width <= width * height) by (nonlinear_arith)
        requires
            y + 1 <= height,
            0 < width,
    ;
    lemma_fundamental_div_mod_converse(at(width, x, y), width, y, x);
}

fn is_white(bgra: &[u8], p: usize) -> (found: bool)
    requires
        p * 4 + 3 <= usize::MAX,
    ensures
        found == white(bgra@, p as int),
{
    let total: usize = bgra.len();
    let i: usize = p * 4;
    i + 3 <= total && bgra[i] > 127 && bgra[i + 1] > 127 && bgra[i + 2] > 127
}

/// Which pixels of a pointer the mask cuts out, row by row from the top.
pub fn read_cursor_mask(
    mask: &[u8],
    width: u32,
    height: u32,
    mask_height: u32,
    has_color: bool,
) -> (transparent: Vec<bool>)
    requires
        0 < width <= MAX_SIDE,
        0 < height <= MAX_SIDE,
        mask_height >= if has_color {
            height as int
        } else {
            2 * height
        },
        width * mask_height * 4 <= u32::MAX,
    ensures
        transparent@ == Seq::new(
            (width * height) as nat,
            |p: int|
                cut_out(
                    mask@,
                    width as int,
                    height as int,
                    mask_height as int,
                    has_color,
                    p % (width as int),
                    p / (width as int),
                ),
        ),
{
    let mut transparent: Vec<bool> = Vec::new();
    let w: usize = width as usize;
    let h: usize = height as usize;
    let mh: usize = mask_height as usize;
    let ghost pick = |p: int|
        cut_out(mask@, w as int, h as int, mh as int, has_color, p % (w as int), p / (w as int));
    let mut y: usize = 0;
    assert(0 * w == 0);
    while y < h
        invariant
            y <= h,
            w == width,
            h == height,
            mh == mask_height,
            0 < w,
            mh >= if has_color {
                h as int
            } else {
                2 * h
            },
            w * mh * 4 <= u32::MAX,
            pick == (|p: int|
                cut_out(
                    mask@,
                    w as int,
                    h as int,
                    mh as int,
                    has_color,
                    p % (w as int),
                    p / (w as int),
                )),
            transparent@ == Seq::new((y * w) as nat, pick),
        decreases h - y,
    {
        let mut x: usize = 0;
        while x < w
            invariant
                x <= w,
                y < h,
                w == width,
                h == height,
                mh == mask_height,
                0 < w,
                mh >= if has_color {
                    h as int
                } else {
                    2 * h
                },
                w * mh * 4 <= u32::MAX,
                pick == (|p: int|
                    cut_out(
                        mask@,
                        w as int,
                        h as int,
                        mh as int,
                        has_color,
                        p % (w as int),
                        p / (w as int),
                    )),
                transparent@ == Seq::new((y * w + x) as nat, pick),
            decreases w - x,
        {
            proof {
                lemma_at(w as int, mh as int, x as int, mh - 1 - y);
                lemma_at(w as int, h as int, x as int, y as int);
                if !has_color {
                    lemma_at(w as int, mh as int, x as int, mh - 1 - (y + h));
                }
                assert(w * mh <= w * mh * 4);
            }
            let upper: usize = mh - 1 - y;
            assert(0 <= upper * w <= upper * w + x);
            let mut clear: bool = is_white(mask, upper * w + x);
            if !has_color {
                let lower: usize = mh - 1 - (y + h);
                let inverts: bool = is_white(mask, lower * w + x);
                clear = clear && !inverts;
            }
            transparent.push(clear);
            assert(pick(y * w + x) == clear);
            x = x + 1;
        }
        assert(y * w + w == (y + 1) * w) by (nonlinear_arith);
        y = y + 1;
    }
    assert(h * w == w * h) by (nonlinear_arith);
    transparent
}

/// Some pixel is not fully clear.
pub open spec fn has_alpha(bgra: Seq<u8>) -> bool {
    exists|p: int| 0 <= p && p * 4 + 3 < bgra.len() && #[trigger] alpha(bgra, p) != 0
}

/// The alpha of a pixel.
pub open spec fn alpha(pixels: Seq<u8>, p: int) -> u8 {
    pixels[p * 4 + 3]
}

/// The alpha that a pixel is sent with: its own, or what the mask says where no
/// pixel has any, or full where there is no mask either.
pub open spec fn sent_alpha(bgra: Seq<u8>, mask: Option<Seq<bool>>, p: int) -> u8 {
    if has_alpha(bgra) {
        alpha(bgra, p)
    } else {
        match mask {
            Some(clear) => if clear[p] {
                0
            } else {
                255
            },
            None => 255,
        }
    }
}

/// The picture with red first.
pub open spec fn recoloured(bgra: Seq<u8>, mask: Option<Seq<bool>>) -> Seq<u8> {
    Seq::new(
        bgra.len(),
        |i: int|
            if i % 4 == 0 {
                bgra[i + 2]
            } else if i % 4 == 1 {
                bgra[i]
            } else if i % 4 == 2 {
                bgra[i - 2]
            } else {
                sent_alpha(bgra, mask, i / 4)
            },
    )
}

/// The view of a mask that may be missing.
pub open spec fn mask_view(mask: Option<Vec<bool>>) -> Option<Seq<bool>> {
    match mask {
        Some(m) => Some(m@),
        None => None,
    }
}

fn any_alpha(bgra: &[u8]) -> (found: bool)
    requires
        bgra@.len() % 4 == 0,
    ensures
        found == has_alpha(bgra@),
{
    let total: usize = bgra.len() / 4;
    let mut p: usize = 0;
    while p < total
        invariant
            p <= total,
            total == bgra@.len() / 4,
            bgra@.len() <= usize::MAX,
            forall|q: int| 0 <= q < p ==> #[trigger] alpha(bgra@, q) == 0,
        decreases total - p,
    {
        if bgra[p * 4 + 3] != 0 {
            assert(alpha(bgra@, p as int) != 0);
            return true;
        }
        p = p + 1;
    }
    false
}

/// Turns a pointer that the system drew into the picture that viewers draw.
pub fn recolour(bgra: &[u8], mask: &Option<Vec<bool>>) -> (rgba: Vec<u8>)
    requires
        bgra@.len() % 4 == 0,
        mask matches Some(m) ==> m@.len() * 4 == bgra@.len(),
    ensures
        rgba@ == recoloured(bgra@, mask_view(*mask)),
{
    let own: bool = any_alpha(bgra);
    let total: usize = bgra.len() / 4;
    let mut rgba: Vec<u8> = Vec::new();
    let ghost want = recoloured(bgra@, mask_view(*mask));
    let mut p: usize = 0;
    while p < total
        invariant
            p <= total,
            total == bgra@.len() / 4,
            bgra@.len() % 4 == 0,
            bgra@.len() <= usize::MAX,
            own == has_alpha(bgra@),
            mask matches Some(m) ==> m@.len() * 4 == bgra@.len(),
            want == recoloured(bgra@, mask_view(*mask)),
            rgba@ == want.take(p * 4),
        decreases total - p,
    {
        let i: usize = p * 4;
        let a: u8 = if own {
            bgra[i + 3]
        } else {
            match mask {
                Some(clear) => if clear[p] {
                    0
                } else {
                    255
                },
                None => 255,
            }
        };
        rgba.push(bgra[i + 2]);
        rgba.push(bgra[i + 1]);
        rgba.push(bgra[i]);
        rgba.push(a);
        assert((i + 3) / 4 == p);
        assert(rgba@ == want.take((p + 1) * 4));
        p = p + 1;
    }
    assert(want.take(want.len() as int) == want);
    rgba
}

/// How light a pixel looks, from 0 to 255.
pub open spec fn luminance(rgba: Seq<u8>, p: int) -> int {
    (rgba[p * 4] * 299 + rgba[p * 4 + 1] * 587 + rgba[p * 4 + 2] * 114) / 1000
}

/// The pixel can be seen.
pub open spec fn seen(rgba: Seq<u8>, p: int) -> bool {
    alpha(rgba, p) >= 64
}

/// How many of the first `n` pixels can be seen and are light.
pub open spec fn light_pixels(rgba: Seq<u8>, n: int) -> int
    decreases n,
{
    if n <= 0 {
        0
    } else {
        light_pixels(rgba, n - 1) + if seen(rgba, n - 1) && luminance(rgba, n - 1) >= 192 {
            1int
        } else {
            0int
        }
    }
}

/// How many of the first `n` pixels can be seen and are dark.
pub open spec fn dark_pixels(rgba: Seq<u8>, n: int) -> int
    decreases n,
{
    if n <= 0 {
        0
    } else {
        dark_pixels(rgba, n - 1) + if seen(rgba, n - 1) && luminance(rgba, n - 1) <= 80 {
            1int
        } else {
            0int
        }
    }
}

/// The picture is light, with hardly any dark stroke of its own.
pub open spec fn lacks_contrast(rgba: Seq<u8>) -> bool {
    let n = rgba.len() as int / 4;
    light_pixels(rgba, n) > 0 && dark_pixels(rgba, n) * 3 < light_pixels(rgba, n)
}

/// A pixel that an edge is drawn around.
pub open spec fn bright(rgba: Seq<u8>, p: int) -> bool {
    seen(rgba, p) && luminance(rgba, p) >= 160
}

/// A bright pixel lies at `x`, `y` or touches it, be it by a corner.
pub open spec fn touches_bright(rgba: Seq<u8>, width: int, height: int, x: int, y: int) -> bool {
    exists|nx: int, ny: int|
        {
            &&& 0 <= nx < width
            &&& 0 <= ny < height
            &&& x - 1 <= nx <= x + 1
            &&& y - 1 <= ny <= y + 1
            &&& bright(rgba, #[trigger] at(width, nx, ny))
        }
}

/// The pixel is clear and lies at a bright one.
pub open spec fn on_edge(rgba: Seq<u8>, width: int, height: int, p: int) -> bool {
    alpha(rgba, p) < 32 && touches_bright(rgba, width, height, p % width, p / width)
}

/// The picture with a dark edge around what is bright.
pub open spec fn edged(rgba: Seq<u8>, width: int, height: int) -> Seq<u8> {
    Seq::new(
        rgba.len(),
        |i: int|
            if on_edge(rgba, width, height, i / 4) {
                if i % 4 == 3 {
                    220u8
                } else {
                    0u8
                }
            } else {
                rgba[i]
            },
    )
}

/// The picture as it is sent: edged if it lacks contrast.
pub open spec fn outlined(rgba: Seq<u8>, width: int, height: int) -> Seq<u8> {
    if width > 0 && height > 0 && rgba.len() == width * height * 4 && lacks_contrast(rgba) {
        edged(rgba, width, height)
    } else {
        rgba
    }
}

fn light_of(rgba: &[u8], p: usize) -> (light: u32)
    requires
        p * 4 + 3 < rgba@.len() <= usize::MAX,
    ensures
        light == luminance(rgba@, p as int),
{
    let i: usize = p * 4;
    (rgba[i] as u32 * 299 + rgba[i + 1] as u32 * 587 + rgba[i + 2] as u32 * 114) / 1000
}

fn is_dim(rgba: &[u8]) -> (lacking: bool)
    requires
        rgba@.len() % 4 == 0,
    ensures
        lacking == lacks_contrast(rgba@),
{
    let total: usize = rgba.len() / 4;
    let mut light: usize = 0;
    let mut dark: usize = 0;
    let mut p: usize = 0;
    while p < total
        invariant
            p <= total,
            total == rgba@.len() / 4,
            rgba@.len() <= usize::MAX,
            light == light_pixels(rgba@, p as int),
            dark == dark_pixels(rgba@, p as int),
            light <= p,
            dark <= p,
        decreases total - p,
    {
        if rgba[p * 4 + 3] >= 64 {
            let shade: u32 = light_of(rgba, p);
            if shade >= 192 {
                light = light + 1;
            } else if shade <= 80 {
                dark = dark + 1;
            }
        }
        p = p + 1;
    }
    light > 0 && dark * 3 < light
}

fn is_bright(rgba: &[u8], p: usize) -> (found: bool)
    requires
        p * 4 + 3 < rgba@.len() <= usize::MAX,
    ensures
        found == bright(rgba@, p as int),
{
    rgba[p * 4 + 3] >= 64 && light_of(rgba, p) >= 160
}

fn near_bright(rgba: &[u8], width: usize, height: usize, x: usize, y: usize) -> (found: bool)
    requires
        x < width,
        y < height,
        rgba@.len() == width * height * 4,
        rgba@.len() <= usize::MAX,
    ensures
        found == touches_bright(rgba@, width as int, height as int, x as int, y as int),
{
    let x0: usize = if x > 0 {
        x - 1
    } else {
        0
    };
    let y0: usize = if y > 0 {
        y - 1
    } else {
        0
    };
    let x1: usize = if x + 1 < width {
        x + 1
    } else {
        x
    };
    let y1: usize = if y + 1 < height {
        y + 1
    } else {
        y
    };
    let mut ny: usize = y0;
    while ny <= y1
        invariant
            y0 <= ny <= y1 + 1,
            y1 < height,
            x0 <= x1 < width,
            x < width,
            y < height,
            x - 1 <= x0 <= x,
            x <= x1 <= x + 1,
            y - 1 <= y0 <= y,
            y <= y1 <= y + 1,
            x1 == x ==> x + 1 == width,
            y1 == y ==> y + 1 == height,
            x0 == x ==> x == 0,
            y0 == y ==> y == 0,
            rgba@.len() == width * height * 4,
            rgba@.len() <= usize::MAX,
            forall|a: int, b: int|
                x0 <= a <= x1 && y0 <= b < ny ==> !bright(
                    rgba@,
                    #[trigger] at(width as int, a, b),
                ),
        decreases y1 + 1 - ny,
    {
        let mut nx: usize = x0;
        while nx <= x1
            invariant
                y0 <= ny <= y1,
                y1 < height,
                x0 <= nx <= x1 + 1,
                x1 < width,
                x < width,
                y < height,
                x - 1 <= x0 <= x,
                x <= x1 <= x + 1,
                y - 1 <= y0 <= y,
                y <= y1 <= y + 1,
                rgba@.len() == width * height * 4,
                rgba@.len() <= usize::MAX,
                forall|a: int, b: int|
                    x0 <= a <= x1 && y0 <= b < ny ==> !bright(
                        rgba@,
                        #[trigger] at(width as int, a, b),
                    ),
                forall|a: int|
                    x0 <= a < nx ==> !bright(rgba@, #[trigger] at(width as int, a, ny as int)),
            decreases x1 + 1 - nx,
        {
            proof {
                lemma_at(width as int, height as int, nx as int, ny as int);
            }
            assert(0 <= ny * width) by (nonlinear_arith);
            let p: usize = ny * width + nx;
            assert(p == at(width as int, nx as int, ny as int));
            if is_bright(rgba, p) {
                return true;
            }
            nx = nx + 1;
        }
        ny = ny + 1;
    }
    false
}

/// Draws a dark edge of one pixel around a picture that lacks contrast, and
/// leaves every other as it is.
pub fn add_light_cursor_contrast_outline(rgba: Vec<u8>, width: u32, height: u32) -> (out: Vec<u8>)
    requires
        width * height * 4 <= usize::MAX,
    ensures
        out@ == outlined(rgba@, width as int, height as int),
{
    let w: usize = width as usize;
    let h: usize = height as usize;
    assert(0 <= w * h <= w * h * 4) by (nonlinear_arith);
    if w == 0 || h == 0 || rgba.len() != w * h * 4 || !is_dim(rgba.as_slice()) {
        return rgba;
    }
    let ghost want = edged(rgba@, w as int, h as int);
    let mut out: Vec<u8> = Vec::new();
    let mut y: usize = 0;
    assert(0 * w == 0);
    while y < h
        invariant
            y <= h,
            0 < w,
            rgba@.len() == w * h * 4,
            rgba@.len() <= usize::MAX,
            want == edged(rgba@, w as int, h as int),
            out@ == want.take(y * w * 4),
            y * w <= w * h,
        decreases h - y,
    {
        let mut x: usize = 0;
        while x < w
            invariant
                x <= w,
                y < h,
                0 < w,
                rgba@.len() == w * h * 4,
                rgba@.len() <= usize::MAX,
                want == edged(rgba@, w as int, h as int),
                out@ == want.take((y * w + x) * 4),
                0 <= y * w,
            decreases w - x,
        {
            proof {
                lemma_at(w as int, h as int, x as int, y as int);
            }
            let p: usize = y * w + x;
            let i: usize = p * 4;
            let edge: bool = rgba[i + 3] < 32 && near_bright(rgba.as_slice(), w, h, x, y);
            assert(edge == on_edge(rgba@, w as int, h as int, p as int));
            if edge {
                out.push(0);
                out.push(0);
                out.push(0);
                out.push(220);
            } else {
                out.push(rgba[i]);
                out.push(rgba[i + 1]);
                out.push(rgba[i + 2]);
                out.push(rgba[i + 3]);
            }
            assert(i / 4 == p && (i + 1) / 4 == p && (i + 2) / 4 == p && (i + 3) / 4 == p);
            assert(out@ == want.take((y * w + x + 1) * 4));
            x = x + 1;
        }
        assert(y * w + w == (y + 1) * w) by (nonlinear_arith);
        assert((y + 1) * w <= w * h) by (nonlinear_arith)
            requires
                y + 1 <= h,
        ;
        y = y + 1;
    }
    assert(h * w == w * h) by (nonlinear_arith);
    assert(want.take(want.len() as int) == want);
    out
}

/// What is hashed of a pointer: its size, its hotspot and its picture, the last
/// after its length.
pub open spec fn hashed(
    width: u32,
    height: u32,
    hotspot_x: u32,
    hotspot_y: u32,
    rgba: Seq<u8>,
) -> Seq<Seq<u8>> {
    seq![
        bytes::le32(width),
        bytes::le32(height),
        bytes::le32(hotspot_x),
        bytes::le32(hotspot_y),
        bytes::le64(rgba.len() as u64),
        rgba,
    ]
}

/// What a pointer is known by, 0 being kept for no shape.
pub open spec fn shape_id_of(hash: u64) -> u64 {
    if hash == 0 {
        1
    } else {
        hash
    }
}

fn write_u32(hasher: &mut DefaultHasher, n: u32)
    ensures
        final(hasher)@ == old(hasher)@.push(bytes::le32(n)),
{
    let mut word: Vec<u8> = Vec::new();
    bytes::push_u32(&mut word, n);
    assert(word@ == bytes::le32(n));
    hasher.write(word.as_slice());
}

fn hash_shape(width: u32, height: u32, hotspot_x: u32, hotspot_y: u32, rgba: &Vec<u8>) -> (hash: u64)
    ensures
        hash == DefaultHasher::spec_finish(hashed(width, height, hotspot_x, hotspot_y, rgba@)),
{
    let mut hasher: DefaultHasher = DefaultHasher::new();
    write_u32(&mut hasher, width);
    write_u32(&mut hasher, height);
    write_u32(&mut hasher, hotspot_x);
    write_u32(&mut hasher, hotspot_y);
    let mut len: Vec<u8> = Vec::new();
    bytes::push_u64(&mut len, rgba.len() as u64);
    assert(len@ == bytes::le64(rgba@.len() as u64));
    hasher.write(len.as_slice());
    hasher.write(rgba.as_slice());
    assert(hasher@ == hashed(width, height, hotspot_x, hotspot_y, rgba@));
    hasher.finish()
}

/// The shape to send for a picture with this hash.
pub fn finish_shape(
    rgba: Vec<u8>,
    width: u32,
    height: u32,
    hotspot_x: u32,
    hotspot_y: u32,
    hash: u64,
) -> (shape: CursorShape)
    ensures
        shape.shape_id == shape_id_of(hash),
        shape.width == width,
        shape.height == height,
        shape.hotspot_x == bytes::signed_of(hotspot_x),
        shape.hotspot_y == bytes::signed_of(hotspot_y),
        shape.rgba@ == rgba@,
{
    CursorShape {
        shape_id: if hash == 0 {
            1
        } else {
            hash
        },
        width,
        height,
        hotspot_x: bytes::from_bits(hotspot_x),
        hotspot_y: bytes::from_bits(hotspot_y),
        rgba,
    }
}

/// The shape of a pointer that the system drew as `bgra`, known by a hash of it.
pub fn windows_capture_cursor_shape(
    bgra: &[u8],
    mask: &Option<Vec<bool>>,
    width: u32,
    height: u32,
    hotspot_x: u32,
    hotspot_y: u32,
) -> (shape: CursorShape)
    requires
        0 < width <= MAX_SIDE,
        0 < height <= MAX_SIDE,
        bgra@.len() == width * height * 4,
        mask matches Some(m) ==> m@.len() == width * height,
    ensures
        shape.shape_id == shape_id_of(
            DefaultHasher::spec_finish(
                hashed(width, height, hotspot_x, hotspot_y, shape.rgba@),
            ),
        ),
        shape.shape_id != 0,
        shape.width == width,
        shape.height == height,
        shape.hotspot_x == bytes::signed_of(hotspot_x),
        shape.hotspot_y == bytes::signed_of(hotspot_y),
        shape.rgba@ == outlined(recoloured(bgra@, mask_view(*mask)), width as int, height as int),
{
    assert(width * height <= 256 * 256) by (nonlinear_arith)
        requires
            0 <= width <= 256,
            0 <= height <= 256,
    ;
    let rgba: Vec<u8> = recolour(bgra, mask);
    let rgba: Vec<u8> = add_light_cursor_contrast_outline(rgba, width, height);
    let hash: u64 = hash_shape(width, height, hotspot_x, hotspot_y, &rgba);
    finish_shape(rgba, width, height, hotspot_x, hotspot_y, hash)
}

/// The edge never covers what can be seen: a pixel that is not nearly clear stays
/// as it was.
pub proof fn law_outline_keeps_the_picture(rgba: Seq<u8>, width: int, height: int, p: int)
    requires
        0 <= p,
        p * 4 + 3 < rgba.len(),
        alpha(rgba, p) >= 32,
    ensures
        outlined(rgba, width, height).len() == rgba.len(),
        outlined(rgba, width, height).subrange(p * 4, p * 4 + 4) == rgba.subrange(p * 4, p * 4 + 4),
{
    assert((p * 4) / 4 == p && (p * 4 + 1) / 4 == p && (p * 4 + 2) / 4 == p && (p * 4 + 3) / 4 == p);
}

/// A pointer is never sent as a picture that cannot be seen because the system
/// drew it without alpha: where no pixel has any and there is no mask, all are
/// sent as opaque.
pub proof fn law_legacy_pointer_is_opaque(bgra: Seq<u8>, p: int)
    requires
        0 <= p,
        p * 4 + 3 < bgra.len(),
        !has_alpha(bgra),
    ensures
        alpha(recoloured(bgra, None), p) == 255,
{
    assert((p * 4 + 3) / 4 == p);
    assert((p * 4 + 3) % 4 == 3);
}

/// A picture with as much dark as a third of its light is left alone.
pub proof fn law_dark_stroke_is_enough(rgba: Seq<u8>, width: int, height: int)
    requires
        dark_pixels(rgba, rgba.len() as int / 4) * 3 >= light_pixels(rgba, rgba.len() as int / 4),
    ensures
        outlined(rgba, width, height) == rgba,
{
}

/// A pointer is as wide as its bitmap and as high, whichever way the bitmap is stored; of
/// one without colours the two masks share the height.
pub proof fn law_masks_share_the_height(
    b: BitmapSize,
    coloured: Option<(u32, u32)>,
    masked: Option<(u32, u32)>,
)
    requires
        call_ensures(cursor_bitmap_size, (Some(b), true), coloured),
        call_ensures(cursor_bitmap_size, (Some(b), false), masked),
    ensures
        coloured is Some && masked is Some,
        coloured matches Some((w, h)) ==> {
            &&& b.width >= 0 ==> w == b.width
            &&& b.height >= 0 ==> h == b.height
            &&& b.height < 0 ==> h == -b.height
            &&& masked matches Some((mw, mh)) && mw == w && 2 * mh <= h <= 2 * mh + 1
        },
{
}

/// A pointer is drawn at the size of its bitmap, or the system's where that is not known,
/// if it has a size at all and no side is longer than 256 pixels.
pub proof fn law_pointer_size_is_bounded(
    bitmap: Option<(u32, u32)>,
    system: (i32, i32),
    size: Option<(u32, u32)>,
)
    requires
        call_ensures(shape_size, (bitmap, system), size),
    ensures
        size matches Some((w, h)) ==> 1 <= w <= 256 && 1 <= h <= 256,
        bitmap matches Some(b) ==> (size is Some <==> 1 <= b.0 <= 256 && 1 <= b.1 <= 256),
        bitmap is Some && size is Some ==> size == bitmap,
        bitmap is None && system.0 <= 256 && system.1 <= 256 ==> size is Some,
        bitmap is None && system.0 >= 1 && system.1 >= 1 ==> (size matches Some((w, h)) ==> w
            == system.0 && h == system.1),
{
}

/// The first row of a pointer is cut out by the last row of its mask, the next by the row
/// before, and so on, wherever all three colours of the mask are light.
pub proof fn law_mask_is_read_from_the_bottom(
    mask: &[u8],
    width: u32,
    height: u32,
    transparent: Vec<bool>,
    x: int,
    y: int,
)
    requires
        0 < width <= MAX_SIDE,
        0 < height <= MAX_SIDE,
        mask@.len() == width * height * 4,
        call_ensures(read_cursor_mask, (mask, width, height, height, true), transparent),
        0 <= x < width,
        0 <= y < height,
    ensures
        transparent@.len() == width * height,
        0 <= y * width + x < width * height,
        ({
            let m = ((height - 1 - y) * width + x) * 4;
            transparent@[y * width + x] <==> mask@[m] >= 128 && mask@[m + 1] >= 128 && mask@[m + 2]
                >= 128
        }),
{
    lemma_at(width as int, height as int, x, y);
    lemma_at(width as int, height as int, x, height - 1 - y);
}

/// The red of a pixel and its blue change places, the green stays; a picture with alpha
/// keeps it, and one without is clear where the mask says so and opaque elsewhere.
pub proof fn law_red_comes_first(bgra: &[u8], mask: Option<Vec<bool>>, rgba: Vec<u8>, p: int)
    requires
        bgra@.len() % 4 == 0,
        mask matches Some(m) ==> m@.len() * 4 == bgra@.len(),
        call_ensures(recolour, (bgra, &mask), rgba),
        0 <= p,
        p * 4 + 3 < bgra@.len(),
    ensures
        rgba@.len() == bgra@.len(),
        rgba@[p * 4] == bgra@[p * 4 + 2],
        rgba@[p * 4 + 1] == bgra@[p * 4 + 1],
        rgba@[p * 4 + 2] == bgra@[p * 4],
        bgra@[p * 4 + 3] != 0 ==> rgba@[p * 4 + 3] == bgra@[p * 4 + 3],
        (forall|q: int| 0 <= q && q * 4 + 3 < bgra@.len() ==> #[trigger] alpha(bgra@, q) == 0) ==> (
        match mask {
            Some(m) => rgba@[p * 4 + 3] == if m@[p] {
                0u8
            } else {
                255u8
            },
            None => rgba@[p * 4 + 3] == 255,
        }),
        (exists|q: int| 0 <= q && q * 4 + 3 < bgra@.len() && #[trigger] alpha(bgra@, q) != 0)
            ==> rgba@[p * 4 + 3] == bgra@[p * 4 + 3],
{
    if bgra@[p * 4 + 3] != 0 {
        assert(alpha(bgra@, p) != 0);
    }
}

/// A grey looks as light as it is, and of the three colours green weighs most and blue
/// least.
pub proof fn law_green_weighs_most(rgba: Seq<u8>, p: int)
    requires
        0 <= p,
        p * 4 + 3 < rgba.len(),
    ensures
        rgba[p * 4] == rgba[p * 4 + 1] && rgba[p * 4 + 1] == rgba[p * 4 + 2] ==> luminance(rgba, p)
            == rgba[p * 4],
        1000 * luminance(rgba, p) <= 299 * rgba[p * 4] + 587 * rgba[p * 4 + 1] + 114 * rgba[p * 4
            + 2] < 1000 * luminance(rgba, p) + 1000,
{
}

proof fn lemma_none_counted(rgba: Seq<u8>, n: int)
    requires
        0 <= n,
        n * 4 <= rgba.len(),
    ensures
        (forall|p: int|
            0 <= p < n ==> #[trigger] alpha(rgba, p) < 64 || luminance(rgba, p) < 192)
            ==> light_pixels(rgba, n) == 0,
        (forall|p: int| 0 <= p < n ==> #[trigger] alpha(rgba, p) < 64 || luminance(rgba, p) > 80)
            ==> dark_pixels(rgba, n) == 0,
        (exists|p: int|
            0 <= p < n && #[trigger] alpha(rgba, p) >= 64 && luminance(rgba, p) >= 192)
            ==> light_pixels(rgba, n) > 0,
        light_pixels(rgba, n) >= 0,
        dark_pixels(rgba, n) >= 0,
    decreases n,
{
    if n > 0 {
        lemma_none_counted(rgba, n - 1);
        assert(alpha(rgba, n - 1) == alpha(rgba, n - 1));
    }
}

/// A picture without anything light to be seen is sent as it is.
pub proof fn law_picture_without_light_is_left_alone(
    rgba: Vec<u8>,
    width: u32,
    height: u32,
    out: Vec<u8>,
)
    requires
        width * height * 4 <= usize::MAX,
        call_ensures(add_light_cursor_contrast_outline, (rgba, width, height), out),
        forall|p: int|
            0 <= p && p * 4 + 3 < rgba@.len() ==> #[trigger] alpha(rgba@, p) < 64 || luminance(
                rgba@,
                p,
            ) < 192,
    ensures
        out@ == rgba@,
{
    lemma_none_counted(rgba@, rgba@.len() as int / 4);
}

/// A picture with something light and nothing dark to be seen gets its edge: each clear
/// pixel that touches a bright one, be it by a corner, becomes a dark one, and no other
/// pixel changes.
pub proof fn law_pale_picture_gets_an_edge(
    rgba: Vec<u8>,
    width: u32,
    height: u32,
    out: Vec<u8>,
    light: int,
    x: int,
    y: int,
    nx: int,
    ny: int,
)
    requires
        width * height * 4 <= usize::MAX,
        rgba@.len() == width * height * 4,
        call_ensures(add_light_cursor_contrast_outline, (rgba, width, height), out),
        0 <= light,
        light * 4 + 3 < rgba@.len(),
        rgba@[light * 4 + 3] >= 64,
        luminance(rgba@, light) >= 192,
        forall|p: int|
            0 <= p && p * 4 + 3 < rgba@.len() ==> #[trigger] alpha(rgba@, p) < 64 || luminance(
                rgba@,
                p,
            ) > 80,
        0 <= x < width,
        0 <= y < height,
        0 <= nx < width,
        0 <= ny < height,
        x - 1 <= nx <= x + 1,
        y - 1 <= ny <= y + 1,
        rgba@[(ny * width + nx) * 4 + 3] >= 64,
        luminance(rgba@, ny * width + nx) >= 160,
        rgba@[(y * width + x) * 4 + 3] < 32,
    ensures
        out@[(y * width + x) * 4] == 0,
        out@[(y * width + x) * 4 + 1] == 0,
        out@[(y * width + x) * 4 + 2] == 0,
        out@[(y * width + x) * 4 + 3] == 220,
{
    let n = rgba@.len() as int / 4;
    assert(alpha(rgba@, light) >= 64);
    lemma_none_counted(rgba@, n);
    assert(width > 0 && height > 0);
    lemma_at(width as int, height as int, x, y);
    let p = at(width as int, x, y);
    assert(p == y * width + x);
    assert(bright(rgba@, at(width as int, nx, ny)));
    assert(touches_bright(rgba@, width as int, height as int, x, y));
    assert(on_edge(rgba@, width as int, height as int, p));
    assert((p * 4) / 4 == p && (p * 4 + 1) / 4 == p && (p * 4 + 2) / 4 == p && (p * 4 + 3) / 4
        == p);
}

/// A pixel changes only where it is clear and touches one that is bright and can be seen.
pub proof fn law_edge_lies_at_what_is_bright(
    rgba: Vec<u8>,
    width: u32,
    height: u32,
    out: Vec<u8>,
    i: int,
)
    requires
        width * height * 4 <= usize::MAX,
        call_ensures(add_light_cursor_contrast_outline, (rgba, width, height), out),
        0 <= i < rgba@.len(),
        out@[i] != rgba@[i],
    ensures
        rgba@[i / 4 * 4 + 3] < 32,
        exists|nx: int, ny: int|
            {
                &&& 0 <= nx < width
                &&& 0 <= ny < height
                &&& (i / 4) % (width as int) - 1 <= nx <= (i / 4) % (width as int) + 1
                &&& (i / 4) / (width as int) - 1 <= ny <= (i / 4) / (width as int) + 1
                &&& alpha(rgba@, #[trigger] at(width as int, nx, ny)) >= 64
                &&& luminance(rgba@, at(width as int, nx, ny)) >= 160
            },
{
}

proof fn lemma_light_beside_dark(rgba: Seq<u8>, n: int)
    requires
        0 <= n,
        n * 4 + 4 <= rgba.len(),
        forall|p: int|
            0 <= p && p * 4 + 3 < rgba.len() && #[trigger] alpha(rgba, p) >= 64 && luminance(
                rgba,
                p,
            ) >= 192 ==> p * 4 + 7 < rgba.len() && alpha(rgba, p + 1) >= 64 && luminance(
                rgba,
                p + 1,
            ) <= 80,
    ensures
        light_pixels(rgba, n) <= dark_pixels(rgba, n + 1),
    decreases n,
{
    lemma_none_counted(rgba, n + 1);
    if n > 0 {
        lemma_light_beside_dark(rgba, n - 1);
        assert(alpha(rgba, n - 1) == alpha(rgba, n - 1));
        assert(dark_pixels(rgba, n + 1) == dark_pixels(rgba, n) + if seen(rgba, n) && luminance(
            rgba,
            n,
        ) <= 80 {
            1int
        } else {
            0int
        });
    }
}

/// A picture in which every light pixel has a dark one to its right has contrast of its
/// own, and is sent as it is.
pub proof fn law_strokes_of_its_own_are_enough(
    rgba: Vec<u8>,
    width: u32,
    height: u32,
    out: Vec<u8>,
)
    requires
        width * height * 4 <= usize::MAX,
        call_ensures(add_light_cursor_contrast_outline, (rgba, width, height), out),
        rgba@.len() >= 4,
        rgba@.len() % 4 == 0,
        forall|p: int|
            0 <= p && p * 4 + 3 < rgba@.len() && #[trigger] alpha(rgba@, p) >= 64 && luminance(
                rgba@,
                p,
            ) >= 192 ==> p * 4 + 7 < rgba@.len() && alpha(rgba@, p + 1) >= 64 && luminance(
                rgba@,
                p + 1,
            ) <= 80,
    ensures
        out@ == rgba@,
{
    let n = rgba@.len() as int / 4;
    lemma_light_beside_dark(rgba@, n - 1);
    assert(alpha(rgba@, n - 1) == alpha(rgba@, n - 1));
    assert(light_pixels(rgba@, n) == light_pixels(rgba@, n - 1));
}

/// A shape is never known as nothing, keeps the size and hotspot that it was given, and
/// two with the same hash are known by the same number.
pub proof fn law_shape_is_what_it_was_given(
    rgba: Vec<u8>,
    width: u32,
    height: u32,
    hotspot_x: u32,
    hotspot_y: u32,
    hash: u64,
    shape: CursorShape,
)
    requires
        call_ensures(finish_shape, (rgba, width, height, hotspot_x, hotspot_y, hash), shape),
    ensures
        shape.shape_id != 0,
        hash != 0 ==> shape.shape_id == hash,
        shape.width == width,
        shape.height == height,
        hotspot_x <= i32::MAX ==> shape.hotspot_x == hotspot_x,
        hotspot_y <= i32::MAX ==> shape.hotspot_y == hotspot_y,
        shape.rgba@ == rgba@,
{
}

} // verus!
