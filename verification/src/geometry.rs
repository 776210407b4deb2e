//! Logical and physical coordinate arithmetic for the move gesture.
//!
//! Pointer positions are fractional logical coordinates, held in fixed-point
//! subpixel units (`SUB_UNITS` per logical pixel). Window and output
//! positions are whole logical pixels. Rounding to the pixel grid happens at
//! exactly two places in the gesture — per-frame rendering and the final
//! commit — and both go through `round_to_px`.

use vstd::prelude::*;
use vstd::arithmetic::div_mod::{
    lemma_div_multiples_vanish_fancy, lemma_fundamental_div_mod,
    lemma_mod_division_less_than_divisor,
};

verus! {

/// Subpixel units per logical pixel.
pub const SUB_UNITS: i64 = 256;

/// Bound on whole-pixel logical coordinates and sizes that this subsystem
/// works with. Far beyond any real display arrangement; it exists only so
/// the fixed-width arithmetic below is provably free of overflow.
pub const COORD_LIMIT: i64 = 0x400000;

/// Bound on fractional logical coordinates, in subpixel units.
pub const SUB_LIMIT: i64 = COORD_LIMIT * SUB_UNITS;

/// Bound on a projected window location: the initial window location plus a
/// pointer displacement, each bounded by `COORD_LIMIT`, rounded to pixels.
pub const PROJ_LIMIT: i64 = 3 * COORD_LIMIT;

/// Bound on an output scale factor, in subpixel units per pixel
/// (`SUB_UNITS` is a scale factor of one).
pub const SCALE_LIMIT: i64 = 16 * 256;

/// A position in whole logical pixels.
#[derive(Clone, Copy, PartialEq, Eq, Debug)]
pub struct Pixel {
    pub x: i32,
    pub y: i32,
}

/// A position in fractional logical coordinates, in subpixel units.
#[derive(Clone, Copy, PartialEq, Eq, Debug)]
pub struct SubPixel {
    pub x: i64,
    pub y: i64,
}

/// An extent in whole logical pixels.
#[derive(Clone, Copy, PartialEq, Eq, Debug)]
pub struct Extent {
    pub w: i32,
    pub h: i32,
}

/// An axis-aligned rectangle in whole logical pixels.
#[derive(Clone, Copy, PartialEq, Eq, Debug)]
pub struct Rect {
    pub loc: Pixel,
    pub size: Extent,
}

pub open spec fn coord_ok(v: int) -> bool {
    -COORD_LIMIT <= v <= COORD_LIMIT
}

pub open spec fn pixel_ok(p: Pixel) -> bool {
    coord_ok(p.x as int) && coord_ok(p.y as int)
}

pub open spec fn sub_ok(v: int) -> bool {
    -SUB_LIMIT <= v <= SUB_LIMIT
}

pub open spec fn sub_pixel_ok(p: SubPixel) -> bool {
    sub_ok(p.x as int) && sub_ok(p.y as int)
}

pub open spec fn extent_ok(s: Extent) -> bool {
    0 <= s.w <= COORD_LIMIT && 0 <= s.h <= COORD_LIMIT
}

pub open spec fn rect_ok(r: Rect) -> bool {
    pixel_ok(r.loc) && extent_ok(r.size)
}

pub open spec fn scale_ok(scale: int) -> bool {
    1 <= scale <= SCALE_LIMIT
}

/// Rounding of a subpixel value to whole logical pixels, halves away from
/// zero.
pub open spec fn round_to_px(v: int) -> int {
    if v >= 0 {
        (v + 128) / 256
    } else {
        -((-v + 128) / 256)
    }
}

/// A value that is already on the pixel grid rounds to itself.
pub proof fn lemma_round_exact(w: int)
    ensures
        round_to_px(w * 256) == w,
{
    if w >= 0 {
        assert((256 * w + 128) / 256 == w) by {
            lemma_div_multiples_vanish_fancy(w, 128, 256);
        }
        assert(w * 256 + 128 == 256 * w + 128);
    } else {
        assert((256 * (-w) + 128) / 256 == -w) by {
            lemma_div_multiples_vanish_fancy(-w, 128, 256);
        }
        assert(-(w * 256) + 128 == 256 * (-w) + 128);
    }
}

/// Rounding keeps a value inside any whole-pixel bound that the subpixel
/// value respects.
pub proof fn lemma_round_range(v: int, b: int)
    requires
        0 <= b,
        -(b * 256) <= v <= b * 256,
    ensures
        -b <= round_to_px(v) <= b,
{
    if v >= 0 {
        let q = (v + 128) / 256;
        let r = (v + 128) % 256;
        lemma_fundamental_div_mod(v + 128, 256);
        lemma_mod_division_less_than_divisor(v + 128, 256);
        assert(256 * q == v + 128 - r);
        assert(256 * q <= b * 256 + 128);
        assert(256 * q >= 0);
        assert(q <= b);
        assert(q >= 0);
    } else {
        let m = -v;
        let q = (m + 128) / 256;
        let r = (m + 128) % 256;
        lemma_fundamental_div_mod(m + 128, 256);
        lemma_mod_division_less_than_divisor(m + 128, 256);
        assert(256 * q == m + 128 - r);
        assert(256 * q <= b * 256 + 128);
        assert(256 * q >= 0);
        assert(q <= b);
        assert(q >= 0);
    }
}

/// Round a subpixel value to whole logical pixels, halves away from zero.
pub fn round_to_px_exec(v: i64) -> (r: i64)
    requires
        -0x2000_0000_0000_0000 <= v <= 0x2000_0000_0000_0000,
    ensures
        r == round_to_px(v as int),
{
    if v >= 0 {
        let q: u64 = (v as u64 + 128) / 256;
        q as i64
    } else {
        let m: u64 = (-v) as u64;
        let q: u64 = (m + 128) / 256;
        -(q as i64)
    }
}

/// Whether two rectangles, given by corner coordinates and extents,
/// overlap: on both axes, each rectangle starts strictly before the other
/// ends. Rectangles reach from their corner up to, and excluding, corner
/// plus extent, so merely touching edges never count as overlap.
pub open spec fn boxes_overlap(
    ax: int, ay: int, aw: int, ah: int,
    bx: int, by: int, bw: int, bh: int,
) -> bool {
    ax < bx + bw && bx < ax + aw && ay < by + bh && by < ay + ah
}

pub open spec fn rects_overlap(a: Rect, b: Rect) -> bool {
    boxes_overlap(
        a.loc.x as int, a.loc.y as int, a.size.w as int, a.size.h as int,
        b.loc.x as int, b.loc.y as int, b.size.w as int, b.size.h as int,
    )
}

/// Whether two rectangles share any area. The comparisons run in a wider
/// integer type, so any rectangle with representable fields is accepted.
pub fn rects_overlap_exec(a: &Rect, b: &Rect) -> (r: bool)
    ensures
        r == rects_overlap(*a, *b),
{
    let ax: i64 = a.loc.x as i64;
    let ay: i64 = a.loc.y as i64;
    let bx: i64 = b.loc.x as i64;
    let by: i64 = b.loc.y as i64;
    ax < bx + b.size.w as i64 && bx < ax + a.size.w as i64
        && ay < by + b.size.h as i64 && by < ay + a.size.h as i64
}

/// A logical-pixel distance scaled to physical pixels and rounded:
/// `d` logical pixels under a scale of `scale / 256`.
pub open spec fn to_physical(d: int, scale: int) -> int {
    round_to_px(d * scale)
}

} // verus!
