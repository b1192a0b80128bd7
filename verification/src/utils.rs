//! The shared dimension computation: fitting a source image into a
//! bounding box while preserving its aspect ratio.

use vstd::prelude::*;

pub mod gifsicle;
pub mod magick;
pub mod oxipng;
pub mod webp;

verus! {

use vstd::arithmetic::div_mod::{
    lemma_div_multiples_vanish,
    lemma_multiply_divide_le,
    lemma_multiply_divide_lt,
};
use vstd::arithmetic::mul::lemma_mul_is_commutative;

/// The dimensions that fit `(w, h)` into the box `(mw, mh)`: the ratio
/// `mw / w` or `mh / h` that binds first scales both sides, the bound side
/// lands exactly on its maximum and the other is rounded down.
pub open spec fn fit_spec(w: int, h: int, mw: int, mh: int) -> (int, int) {
    if mw * h < mh * w {
        (mw, h * mw / w)
    } else {
        (w * mh / h, mh)
    }
}

/// Fits the source dimensions `(width, height)` into the bounding box
/// `(max_width, max_height)`, preserving the aspect ratio up to rounding.
pub fn fit(width: u32, height: u32, max_width: u32, max_height: u32) -> (r: (u32, u32))
    requires
        width > 0,
        height > 0,
    ensures
        (r.0 as int, r.1 as int) == fit_spec(
            width as int,
            height as int,
            max_width as int,
            max_height as int,
        ),
{
    let w = width as u64;
    let h = height as u64;
    let mw = max_width as u64;
    let mh = max_height as u64;
    proof {
        assert(mw * h <= 0xffff_ffff * 0xffff_ffff && mh * w <= 0xffff_ffff * 0xffff_ffff
            && h * mw <= 0xffff_ffff * 0xffff_ffff && w * mh <= 0xffff_ffff * 0xffff_ffff)
            by (nonlinear_arith)
            requires
                w <= 0xffff_ffff,
                h <= 0xffff_ffff,
                mw <= 0xffff_ffff,
                mh <= 0xffff_ffff,
        ;
    }
    if mw * h < mh * w {
        let nh = (h * mw) / w;
        proof {
            lemma_multiply_divide_lt((h * mw) as int, w as int, mh as int);
            lemma_mul_is_commutative(w as int, mh as int);
        }
        (max_width, nh as u32)
    } else {
        let nw = (w * mh) / h;
        proof {
            lemma_mul_is_commutative(h as int, mw as int);
            lemma_multiply_divide_le((w * mh) as int, h as int, mw as int);
        }
        (nw as u32, max_height)
    }
}

/// Fitting into the source's own dimensions changes nothing.
pub proof fn lemma_fit_identity(w: int, h: int)
    requires
        w > 0,
        h > 0,
    ensures
        fit_spec(w, h, w, h) == (w, h),
{
    lemma_mul_is_commutative(w, h);
    lemma_div_multiples_vanish(w, h);
    assert(w * h == h * w);
    assert((h * w) / h == w);
}

/// The fitted dimensions stay inside the box, and at least one side lands
/// exactly on its maximum.
pub proof fn lemma_fit_bounds(w: int, h: int, mw: int, mh: int)
    requires
        w > 0,
        h > 0,
        mw > 0,
        mh > 0,
    ensures
        fit_spec(w, h, mw, mh).0 <= mw,
        fit_spec(w, h, mw, mh).1 <= mh,
        fit_spec(w, h, mw, mh).0 == mw || fit_spec(w, h, mw, mh).1 == mh,
{
    if mw * h < mh * w {
        lemma_multiply_divide_lt(h * mw, w, mh);
        lemma_mul_is_commutative(w, mh);
    } else {
        lemma_mul_is_commutative(h, mw);
        lemma_multiply_divide_le(w * mh, h, mw);
    }
}

/// The effective bounding box of one conversion: an absent target width or
/// height is replaced by the source's own dimension before fitting, so that
/// leaving both out asks for no resize at all.
pub open spec fn target_spec(w: int, h: int, width: Option<u32>, height: Option<u32>) -> (
    int,
    int,
) {
    fit_spec(
        w,
        h,
        if width is Some { width->0 as int } else { w },
        if height is Some { height->0 as int } else { h },
    )
}

/// The dimensions an adapter resizes to: the requested box, with absent
/// sides taken from the source, fitted around the source dimensions.
pub fn effective_target(src_w: u32, src_h: u32, width: Option<u32>, height: Option<u32>) -> (r: (
    u32,
    u32,
))
    requires
        src_w > 0,
        src_h > 0,
    ensures
        (r.0 as int, r.1 as int) == target_spec(src_w as int, src_h as int, width, height),
{
    let mw = match width {
        Some(w) => w,
        None => src_w,
    };
    let mh = match height {
        Some(h) => h,
        None => src_h,
    };
    fit(src_w, src_h, mw, mh)
}

/// A conversion that asks for no dimensions keeps the source dimensions.
pub proof fn lemma_no_dimension_passthrough(w: int, h: int)
    requires
        w > 0,
        h > 0,
    ensures
        target_spec(w, h, None, None) == (w, h),
{
    lemma_fit_identity(w, h);
}

} // verus!
