use vstd::prelude::*;
use crate::error::ViuError;

verus! {

/// Clamp an ideal cell count into the representable range, never below one cell.
pub open spec fn clamp_cell(v: int) -> int {
    if v < 1 {
        1
    } else if v > u32::MAX {
        u32::MAX as int
    } else {
        v
    }
}

/// Cell height matching a requested width `w` while preserving the native
/// pixel aspect ratio. A character cell is treated as twice as tall as it is
/// wide, so the ideal height is `nh * w / (2 * nw)` cells; the division rounds
/// to nearest.
pub open spec fn height_for_width(nw: int, nh: int, w: int) -> int
    recommends
        nw >= 1,
{
    clamp_cell((nh * w + nw) / (2 * nw))
}

/// Cell width matching a requested height `h` while preserving the native
/// pixel aspect ratio: the ideal width is `2 * nw * h / nh` cells, rounded to
/// nearest.
pub open spec fn width_for_height(nw: int, nh: int, h: int) -> int
    recommends
        nh >= 1,
{
    clamp_cell((4 * nw * h + nh) / (2 * nh))
}

/// The fitting policy when neither axis is requested: the native size, one
/// cell per pixel column, shrunk to the terminal extent where it does not fit
/// and never upscaled.
pub open spec fn fit_unconstrained(nw: int, nh: int, tc: int, tr: int) -> (int, int) {
    let h0 = height_for_width(nw, nh, nw);
    if nw <= tc && h0 <= tr {
        (nw, h0)
    } else {
        let h1 = height_for_width(nw, nh, tc);
        if h1 <= tr {
            (tc, h1)
        } else {
            (width_for_height(nw, nh, tr), tr)
        }
    }
}

/// The full fitting policy: both requests honoured verbatim, a single request
/// completed from the aspect ratio, no request fitted to the terminal extent.
pub open spec fn fit_spec(
    nw: int,
    nh: int,
    rw: Option<u32>,
    rh: Option<u32>,
    tc: int,
    tr: int,
) -> (int, int) {
    match (rw, rh) {
        (Some(w), Some(h)) => (w as int, h as int),
        (Some(w), None) => (w as int, height_for_width(nw, nh, w as int)),
        (None, Some(h)) => (width_for_height(nw, nh, h as int), h as int),
        (None, None) => fit_unconstrained(nw, nh, tc, tr),
    }
}

fn height_for_width_exec(nw: u32, nh: u32, w: u32) -> (r: u32)
    requires
        nw >= 1,
    ensures
        r as int == height_for_width(nw as int, nh as int, w as int),
{
    proof {
        vstd::arithmetic::mul::lemma_mul_upper_bound(
            nh as int,
            u32::MAX as int,
            w as int,
            u32::MAX as int,
        );
    }
    let num: u64 = (nh as u64) * (w as u64) + (nw as u64);
    let den: u64 = 2 * (nw as u64);
    let q: u64 = num / den;
    if q < 1 {
        1
    } else if q > 0xffff_ffff {
        u32::MAX
    } else {
        q as u32
    }
}

fn width_for_height_exec(nw: u32, nh: u32, h: u32) -> (r: u32)
    requires
        nh >= 1,
    ensures
        r as int == width_for_height(nw as int, nh as int, h as int),
{
    proof {
        vstd::arithmetic::mul::lemma_mul_upper_bound(
            4 * nw as int,
            4 * u32::MAX as int,
            h as int,
            u32::MAX as int,
        );
    }
    let num: u128 = 4 * (nw as u128) * (h as u128) + (nh as u128);
    let den: u128 = 2 * (nh as u128);
    let q: u128 = num / den;
    if q < 1 {
        1
    } else if q > 0xffff_ffff {
        u32::MAX
    } else {
        q as u32
    }
}

/// Computes the cell dimensions to render at. Degenerate native dimensions
/// are rejected with InvalidImage before any encoding is attempted.
pub fn find_best_fit(
    nw: u32,
    nh: u32,
    rw: Option<u32>,
    rh: Option<u32>,
    term_cols: u32,
    term_rows: u32,
) -> (r: Result<(u32, u32), ViuError>)
    requires
        term_cols >= 1,
        term_rows >= 1,
    ensures
        r is Err <==> (nw == 0 || nh == 0),
        r is Err ==> r->Err_0 == ViuError::InvalidImage,
        r matches Ok(d) ==> (d.0 as int, d.1 as int) == fit_spec(
            nw as int,
            nh as int,
            rw,
            rh,
            term_cols as int,
            term_rows as int,
        ),
{
    if nw == 0 || nh == 0 {
        return Err(ViuError::InvalidImage);
    }
    match (rw, rh) {
        (Some(w), Some(h)) => Ok((w, h)),
        (Some(w), None) => Ok((w, height_for_width_exec(nw, nh, w))),
        (None, Some(h)) => Ok((width_for_height_exec(nw, nh, h), h)),
        (None, None) => {
            let h0 = height_for_width_exec(nw, nh, nw);
            if nw <= term_cols && h0 <= term_rows {
                Ok((nw, h0))
            } else {
                let h1 = height_for_width_exec(nw, nh, term_cols);
                if h1 <= term_rows {
                    Ok((term_cols, h1))
                } else {
                    Ok((width_for_height_exec(nw, nh, term_rows), term_rows))
                }
            }
        },
    }
}

/// With only the width requested, the fitted height preserves the native
/// aspect ratio within rounding tolerance: the ideal relation is
/// `nh * w == 2 * nw * h`, and the rounded height misses it by at most half a
/// cell's worth (`nw` out of a denominator of `2 * nw`). The bound asks that
/// the rounded value not be clamped at either end.
pub proof fn lemma_aspect_ratio_width_given(nw: int, nh: int, w: int)
    requires
        nw >= 1,
        nh >= 1,
        w >= 1,
        1 <= (nh * w + nw) / (2 * nw) <= u32::MAX,
    ensures
        -nw <= 2 * nw * height_for_width(nw, nh, w) - nh * w <= nw,
{
    let d = 2 * nw;
    let x = nh * w + nw;
    let q = x / d;
    vstd::arithmetic::div_mod::lemma_fundamental_div_mod(x, d);
    vstd::arithmetic::div_mod::lemma_mod_division_less_than_divisor(x, d);
    assert(x == d * q + x % d);
    assert(2 * nw * q == d * q);
    assert(2 * nw * q - nh * w == nw - x % d);
    assert(height_for_width(nw, nh, w) == q);
}

/// With only the height requested, the fitted width preserves the native
/// aspect ratio within rounding tolerance: the ideal relation is
/// `2 * nh * w == 4 * nw * h`, and the rounded width misses it by at most half
/// a cell's worth (`nh` out of a denominator of `2 * nh`). The bound asks that
/// the rounded value not be clamped at either end.
pub proof fn lemma_aspect_ratio_height_given(nw: int, nh: int, h: int)
    requires
        nw >= 1,
        nh >= 1,
        h >= 1,
        1 <= (4 * nw * h + nh) / (2 * nh) <= u32::MAX,
    ensures
        -nh <= 2 * nh * width_for_height(nw, nh, h) - 4 * nw * h <= nh,
{
    let d = 2 * nh;
    let x = 4 * nw * h + nh;
    let q = x / d;
    vstd::arithmetic::div_mod::lemma_fundamental_div_mod(x, d);
    vstd::arithmetic::div_mod::lemma_mod_division_less_than_divisor(x, d);
    assert(x == d * q + x % d);
    assert(2 * nh * q == d * q);
    assert(2 * nh * q - 4 * nw * h == nh - x % d);
    assert(width_for_height(nw, nh, h) == q);
}

/// Where the ideal rounded height would be zero cells, the fitter still
/// renders one cell row; that single row overshoots the ideal aspect
/// relation by at most one full cell's worth (the denominator `2 * nw`).
pub proof fn lemma_aspect_ratio_width_given_floor(nw: int, nh: int, w: int)
    requires
        nw >= 1,
        nh >= 1,
        w >= 1,
        (nh * w + nw) / (2 * nw) < 1,
    ensures
        height_for_width(nw, nh, w) == 1,
        0 < 2 * nw * height_for_width(nw, nh, w) - nh * w <= 2 * nw,
{
    let d = 2 * nw;
    let x = nh * w + nw;
    vstd::arithmetic::div_mod::lemma_fundamental_div_mod(x, d);
    vstd::arithmetic::div_mod::lemma_mod_division_less_than_divisor(x, d);
    assert(nh * w >= 1) by (nonlinear_arith)
        requires
            nh >= 1,
            w >= 1,
    ;
    assert(x / d >= 0) by {
        vstd::arithmetic::div_mod::lemma_div_pos_is_pos(x, d);
    }
    assert(x / d == 0);
    assert(x == d * 0 + x % d);
    assert(nh * w < nw);
    assert(height_for_width(nw, nh, w) == 1);
    assert(2 * nw * 1 - nh * w <= 2 * nw);
}

/// The same floor for a requested height: where the ideal rounded width
/// would be zero cells, one cell column is rendered, overshooting the ideal
/// relation by at most one cell's worth (the denominator `2 * nh`).
pub proof fn lemma_aspect_ratio_height_given_floor(nw: int, nh: int, h: int)
    requires
        nw >= 1,
        nh >= 1,
        h >= 1,
        (4 * nw * h + nh) / (2 * nh) < 1,
    ensures
        width_for_height(nw, nh, h) == 1,
        0 < 2 * nh * width_for_height(nw, nh, h) - 4 * nw * h <= 2 * nh,
{
    let d = 2 * nh;
    let x = 4 * nw * h + nh;
    vstd::arithmetic::div_mod::lemma_fundamental_div_mod(x, d);
    vstd::arithmetic::div_mod::lemma_mod_division_less_than_divisor(x, d);
    assert(4 * nw * h >= 4) by (nonlinear_arith)
        requires
            nw >= 1,
            h >= 1,
    ;
    assert(x / d >= 0) by {
        vstd::arithmetic::div_mod::lemma_div_pos_is_pos(x, d);
    }
    assert(x / d == 0);
    assert(x == d * 0 + x % d);
    assert(4 * nw * h < nh);
    assert(width_for_height(nw, nh, h) == 1);
    assert(2 * nh * 1 - 4 * nw * h <= 2 * nh);
}

/// With both dimensions requested the fitter returns them verbatim.
pub proof fn lemma_fit_both_requested(nw: int, nh: int, w: u32, h: u32, tc: int, tr: int)
    ensures
        fit_spec(nw, nh, Some(w), Some(h), tc, tr) == (w as int, h as int),
{
}

} // verus!
