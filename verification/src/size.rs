//! Negotiates the final render target `(width, height)` in pixels from the
//! image's native size, optional explicit dimensions, optional maximum caps,
//! and the live surface size.
//!
//! Unit convention: one surface column stands for one pixel column, while one
//! surface row stands for two vertical pixels, so every row-unit quantity is
//! doubled before any aspect-ratio arithmetic.

use vstd::prelude::*;
use vstd::arithmetic::div_mod::{
    lemma_div_is_ordered, lemma_div_is_ordered_by_denominator, lemma_fundamental_div_mod,
    lemma_mod_bound,
};

verus! {

/// `other` scaled by the exact ratio `orig_this / orig_other`, rounded to the
/// nearest integer with halves rounded up: `floor(x + 1/2)` written over
/// integers as `(2 * orig_this * other + orig_other) / (2 * orig_other)`.
pub open spec fn scale_spec(other: int, orig_this: int, orig_other: int) -> int {
    (2 * (orig_this * other) + orig_other) / (2 * (orig_other))
}

/// The usable budget on one axis: the surface extent, lowered to the cap
/// where one is given.
pub open spec fn cap_spec(limit: Option<u32>, avail: u32) -> u32 {
    match limit {
        Some(l) => if l < avail { l } else { avail },
        None => avail,
    }
}

/// Letterbox fit: take the height-driven width when it stays inside the
/// width budget, else fill the width budget and derive the height.
pub open spec fn fit_spec(
    orig_width: int,
    orig_height: int,
    target_width: int,
    target_height_px: int,
) -> (int, int) {
    let candidate_width = scale_spec(target_height_px, orig_width, orig_height);
    if candidate_width <= target_width {
        (candidate_width, target_height_px)
    } else {
        (target_width, scale_spec(target_width, orig_height, orig_width))
    }
}

/// The scaled value is the exact real ratio rounded half-up: it differs from
/// `orig_this * other / orig_other` by at most one half, and an exact half
/// lands on the larger integer.
pub proof fn lemma_scale_rounds_half_up(other: int, orig_this: int, orig_other: int)
    requires
        0 <= other,
        0 <= orig_this,
        1 <= orig_other,
    ensures
        2 * orig_other * scale_spec(other, orig_this, orig_other) <= 2 * (orig_this * other)
            + orig_other,
        2 * (orig_this * other) + orig_other < 2 * orig_other * scale_spec(
            other,
            orig_this,
            orig_other,
        ) + 2 * orig_other,
{
    let n = 2 * (orig_this * other) + orig_other;
    let d = 2 * orig_other;
    lemma_fundamental_div_mod(n, d);
    lemma_mod_bound(n, d);
    assert(2 * orig_other * (n / d) == d * (n / d));
}

/// Scaling the same three integers always yields the same result, whatever
/// the order of evaluation at the call sites was.
pub proof fn lemma_scale_deterministic(other: u32, orig_this: u32, orig_other: u32, r1: u32, r2: u32)
    requires
        r1 as int == scale_spec(other as int, orig_this as int, orig_other as int),
        r2 as int == scale_spec(other as int, orig_this as int, orig_other as int),
    ensures
        r1 == r2,
{
}

/// When the height-driven width overflows the width budget, the width-driven
/// height stays inside the height budget: the two rounded fits cannot both
/// overflow their axes.
proof fn lemma_width_branch_height_fits(
    orig_width: int,
    orig_height: int,
    target_width: int,
    target_height: int,
)
    requires
        1 <= orig_width,
        1 <= orig_height,
        0 <= target_width,
        0 <= target_height,
        scale_spec(target_height, orig_width, orig_height) > target_width,
    ensures
        scale_spec(target_width, orig_height, orig_width) <= target_height,
{
    let ow = orig_width;
    let oh = orig_height;
    let tw = target_width;
    let th = target_height;
    let n1 = 2 * (ow * th) + oh;
    let d1 = 2 * oh;
    let q1 = n1 / d1;
    lemma_fundamental_div_mod(n1, d1);
    lemma_mod_bound(n1, d1);
    assert(q1 >= tw + 1);
    assert(d1 * q1 >= d1 * (tw + 1)) by (nonlinear_arith)
        requires
            q1 >= tw + 1,
            d1 >= 2,
    ;
    assert((2 * oh) * (tw + 1) == 2 * (oh * tw) + 2 * oh) by (nonlinear_arith);
    assert(2 * (ow * th) >= 2 * (oh * tw) + oh);
    let n2 = 2 * (oh * tw) + ow;
    let d2 = 2 * ow;
    let q2 = n2 / d2;
    lemma_fundamental_div_mod(n2, d2);
    lemma_mod_bound(n2, d2);
    if q2 > th {
        assert(d2 * q2 >= d2 * (th + 1)) by (nonlinear_arith)
            requires
                q2 >= th + 1,
                d2 >= 2,
        ;
        assert((2 * ow) * (th + 1) == 2 * (ow * th) + 2 * ow) by (nonlinear_arith);
        assert(false);
    }
}

/// The letterbox fit never exceeds the budget on either axis.
pub proof fn lemma_fit_never_exceeds_budget(
    orig_width: int,
    orig_height: int,
    target_width: int,
    target_height_px: int,
)
    requires
        1 <= orig_width,
        1 <= orig_height,
        0 <= target_width,
        0 <= target_height_px,
    ensures
        fit_spec(orig_width, orig_height, target_width, target_height_px).0 <= target_width,
        fit_spec(orig_width, orig_height, target_width, target_height_px).1 <= target_height_px,
{
    if scale_spec(target_height_px, orig_width, orig_height) > target_width {
        lemma_width_branch_height_fits(orig_width, orig_height, target_width, target_height_px);
    }
}

/// The letterbox fit fills the budget exactly on at least one axis.
pub proof fn lemma_fit_fills_one_axis(
    orig_width: int,
    orig_height: int,
    target_width: int,
    target_height_px: int,
)
    requires
        1 <= orig_width,
        1 <= orig_height,
        0 <= target_width,
        0 <= target_height_px,
    ensures
        fit_spec(orig_width, orig_height, target_width, target_height_px).0 == target_width
            || fit_spec(orig_width, orig_height, target_width, target_height_px).1
            == target_height_px,
{
}

/// A cap below the surface extent wins; an absent cap leaves the extent.
pub proof fn lemma_max_cap_clamping(limit: u32, avail: u32)
    ensures
        limit < avail ==> cap_spec(Some(limit), avail) == limit,
        avail <= limit ==> cap_spec(Some(limit), avail) == avail,
        cap_spec(None, avail) == avail,
{
}

/// Scales `other` by `orig_this / orig_other` into a width the result always
/// fits; the narrowing to `u32` is left to the caller.
pub(crate) fn scale_wide(other: u32, orig_this: u32, orig_other: u32) -> (r: u64)
    requires
        orig_other >= 1,
    ensures
        r as int == scale_spec(other as int, orig_this as int, orig_other as int),
{
    proof {
        assert((orig_this as int) * (other as int) <= 0xFFFF_FFFF * 0xFFFF_FFFF)
            by (nonlinear_arith)
            requires
                orig_this <= 0xFFFF_FFFF,
                other <= 0xFFFF_FFFF,
        ;
    }
    let num: u128 = 2 * ((orig_this as u128) * (other as u128)) + (orig_other as u128);
    let den: u128 = 2 * (orig_other as u128);
    let q: u128 = num / den;
    proof {
        lemma_div_is_ordered_by_denominator(num as int, 2, den as int);
        lemma_div_is_ordered(num as int, 0x1_FFFF_FFFF_FFFF_FFFF as int, 2);
        assert((0x1_FFFF_FFFF_FFFF_FFFF as int) / 2 == 0xFFFF_FFFF_FFFF_FFFF);
    }
    q as u64
}

/// `other` scaled by the ratio `orig_this / orig_other`, rounded half-up.
pub fn scale_dimension(other: u32, orig_this: u32, orig_other: u32) -> (r: u32)
    requires
        orig_other >= 1,
        scale_spec(other as int, orig_this as int, orig_other as int) <= u32::MAX,
    ensures
        r as int == scale_spec(other as int, orig_this as int, orig_other as int),
{
    let wide = scale_wide(other, orig_this, orig_other);
    wide as u32
}

/// Sizing failed because no explicit dimension was given and the display
/// surface could not report its size.
#[derive(Clone, Copy, Debug, PartialEq, Eq, Structural)]
pub enum SizeError {
    SurfaceSizeUnavailable,
}

/// The resolved target, in this precedence order: both explicit dimensions
/// taken verbatim (rows doubled, no aspect correction), one explicit
/// dimension with the other derived from the aspect ratio, else a letterbox
/// fit into the surface with one row reserved; with no explicit dimension and
/// no surface, sizing fails.
pub open spec fn determine_size_spec(
    orig_width: int,
    orig_height: int,
    width: Option<u32>,
    height: Option<u32>,
    max_width: Option<u32>,
    max_height: Option<u32>,
    surface: Option<(u16, u16)>,
) -> Result<(int, int), SizeError> {
    match (width, height) {
        (Some(w), Some(h)) => Ok((w as int, 2 * h)),
        (Some(w), None) => Ok((w as int, scale_spec(w as int, orig_height, orig_width))),
        (None, Some(h)) => Ok((scale_spec(2 * h, orig_width, orig_height), 2 * h)),
        (None, None) => match surface {
            Some(s) => {
                let tw = cap_spec(max_width, s.0 as u32) as int;
                let th = 2 * (cap_spec(max_height, (s.1 - 1) as u32) as int);
                Ok(fit_spec(orig_width, orig_height, tw, th))
            },
            None => Err(SizeError::SurfaceSizeUnavailable),
        },
    }
}

/// Resolves the final `(width, height)` pixel target for an image of native
/// size `orig_width x orig_height` from the caller's explicit dimensions and
/// caps and the surface size `(columns, rows)`, when one is attached.
pub fn determine_size(
    orig_width: u32,
    orig_height: u32,
    width: Option<u32>,
    height: Option<u32>,
    max_width: Option<u32>,
    max_height: Option<u32>,
    surface: Option<(u16, u16)>,
) -> (r: Result<(u32, u32), SizeError>)
    requires
        orig_width >= 1,
        orig_height >= 1,
        height matches Some(h) ==> 2 * h <= u32::MAX,
        height is None ==> (width matches Some(w) ==> scale_spec(
            w as int,
            orig_height as int,
            orig_width as int,
        ) <= u32::MAX),
        width is None ==> (height matches Some(h) ==> scale_spec(
            2 * h,
            orig_width as int,
            orig_height as int,
        ) <= u32::MAX),
        surface matches Some(s) ==> s.1 >= 1,
    ensures
        ({
            let sr = determine_size_spec(
                orig_width as int,
                orig_height as int,
                width,
                height,
                max_width,
                max_height,
                surface,
            );
            &&& (r is Ok <==> sr is Ok)
            &&& r matches Ok(d) ==> sr matches Ok(sd) && d.0 as int == sd.0 && d.1 as int == sd.1
            &&& r matches Err(e) ==> e == SizeError::SurfaceSizeUnavailable
        }),
        r is Err <==> (width is None && height is None && surface is None),
{
    match (width, height) {
        (Some(w), Some(h)) => Ok((w, h * 2)),
        (Some(w), None) => Ok((w, scale_dimension(w, orig_height, orig_width))),
        (None, Some(h)) => Ok((scale_dimension(h * 2, orig_width, orig_height), h * 2)),
        (None, None) => match surface {
            Some(s) => {
                let columns: u16 = s.0;
                let rows: u16 = s.1;
                // one row is reserved for surface chrome
                let usable_rows: u16 = rows - 1;
                Ok(
                    fit_to_size(
                        orig_width,
                        orig_height,
                        columns as u32,
                        usable_rows as u32,
                        max_width,
                        max_height,
                    ),
                )
            },
            None => Err(SizeError::SurfaceSizeUnavailable),
        },
    }
}

/// With both dimensions explicit the caller's choice is taken verbatim: the
/// target is exactly `(width, 2 * height)`, whatever the source aspect
/// ratio was.
pub proof fn lemma_both_explicit_overrides_aspect(
    orig_width: int,
    orig_height: int,
    w: u32,
    h: u32,
    max_width: Option<u32>,
    max_height: Option<u32>,
    surface: Option<(u16, u16)>,
)
    ensures
        determine_size_spec(orig_width, orig_height, Some(w), Some(h), max_width, max_height, surface)
            == Ok::<(int, int), SizeError>((w as int, 2 * h)),
{
}

/// With only a width explicit, the height is derived so that the aspect
/// ratio of the source is preserved under round-half-up.
pub proof fn lemma_aspect_preserved_width_only(
    orig_width: int,
    orig_height: int,
    w: u32,
    max_width: Option<u32>,
    max_height: Option<u32>,
    surface: Option<(u16, u16)>,
)
    ensures
        determine_size_spec(orig_width, orig_height, Some(w), None, max_width, max_height, surface)
            == Ok::<(int, int), SizeError>(
            (w as int, scale_spec(w as int, orig_height, orig_width)),
        ),
{
}

/// With only a height explicit, the width is derived so that the aspect
/// ratio of the source is preserved under round-half-up, after rows are
/// turned into pixels.
pub proof fn lemma_aspect_preserved_height_only(
    orig_width: int,
    orig_height: int,
    h: u32,
    max_width: Option<u32>,
    max_height: Option<u32>,
    surface: Option<(u16, u16)>,
)
    ensures
        determine_size_spec(orig_width, orig_height, None, Some(h), max_width, max_height, surface)
            == Ok::<(int, int), SizeError>(
            (scale_spec(2 * h, orig_width, orig_height), 2 * h),
        ),
{
}

/// Largest size inside the surface budget that keeps the source aspect
/// ratio: the result never exceeds the budget on either axis and fills it
/// exactly on at least one.
pub fn fit_to_size(
    orig_width: u32,
    orig_height: u32,
    terminal_width: u32,
    terminal_height: u32,
    max_width: Option<u32>,
    max_height: Option<u32>,
) -> (r: (u32, u32))
    requires
        orig_width >= 1,
        orig_height >= 1,
        terminal_height <= 0x7FFF_FFFF,
    ensures
        ({
            let tw = cap_spec(max_width, terminal_width) as int;
            let th = 2 * (cap_spec(max_height, terminal_height) as int);
            let fit = fit_spec(orig_width as int, orig_height as int, tw, th);
            &&& r.0 as int == fit.0
            &&& r.1 as int == fit.1
            &&& r.0 as int <= tw
            &&& r.1 as int <= th
            &&& (r.0 as int == tw || r.1 as int == th)
        }),
{
    let target_width: u32 = match max_width {
        Some(mw) => if mw < terminal_width {
            mw
        } else {
            terminal_width
        },
        None => terminal_width,
    };
    let capped_rows: u32 = match max_height {
        Some(mh) => if mh < terminal_height {
            mh
        } else {
            terminal_height
        },
        None => terminal_height,
    };
    // two pixels per surface row
    let target_height: u32 = 2 * capped_rows;
    let calculated_width: u64 = scale_wide(target_height, orig_width, orig_height);
    if calculated_width <= target_width as u64 {
        (calculated_width as u32, target_height)
    } else {
        proof {
            lemma_width_branch_height_fits(
                orig_width as int,
                orig_height as int,
                target_width as int,
                target_height as int,
            );
        }
        let derived_height = scale_dimension(target_width, orig_height, orig_width);
        (target_width, derived_height)
    }
}

} // verus!
