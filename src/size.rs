use vstd::prelude::*;
use crate::config::Config;

verus! {

/// `n / d` rounded to the nearest integer, halves away from zero.
pub open spec fn round_ratio(n: int, d: int) -> int {
    (2 * n + d) / (2 * d)
}

/// A grid dimension of exact size `n / d`: rounded, at least 1, and
/// saturated at `u32::MAX`.
pub open spec fn grid_dim(n: int, d: int) -> int {
    let r = round_ratio(n, d);
    if r < 1 {
        1
    } else if r > u32::MAX {
        u32::MAX as int
    } else {
        r
    }
}

/// The character aspect ratio in thousandths, 2000 standing in for 0.
pub open spec fn effective_aspect(aspect: u32) -> int {
    if aspect == 0 {
        2000
    } else {
        aspect as int
    }
}

/// The target grid for a `w` by `h` source. With `a` the aspect ratio and `s`
/// the scale (both as real numbers), the exact sizes before rounding are:
/// - width and height set: `width` by `height / a`;
/// - width only: `width` by `(h / a) * (width / w)`, both times `s` if set;
/// - height only: `w * ((height / a) * a / h)` by `height / a`, both times `s`
///   if set;
/// - scale only: `w * s` by `(h / a) * s`;
/// - none: 80 by `(h / a) * (80 / w)`.
/// The fractions below are these sizes with `a` and `s` in thousandths.
pub open spec fn target_dims(
    w: u32,
    h: u32,
    width: Option<u32>,
    height: Option<u32>,
    scale: Option<u32>,
    aspect: u32,
) -> (int, int) {
    let a = effective_aspect(aspect);
    match (width, height, scale) {
        (Some(tw), Some(th), _) => (grid_dim(tw as int, 1), grid_dim(1000 * th, a)),
        (Some(tw), None, None) => (grid_dim(tw as int, 1), grid_dim(1000 * h * tw, a * w)),
        (Some(tw), None, Some(s)) => (grid_dim(tw * s, 1000), grid_dim(h * tw * s, a * w)),
        (None, Some(th), None) => (grid_dim(w * th, h as int), grid_dim(1000 * th, a)),
        (None, Some(th), Some(s)) => (grid_dim(w * th * s, 1000 * h), grid_dim(th * s, a)),
        (None, None, Some(s)) => (grid_dim(w * s, 1000), grid_dim(h * s, a)),
        (None, None, None) => (80, grid_dim(80_000 * h, a * w)),
    }
}

/// `target_dims` for a configuration.
pub open spec fn target_size_spec(w: u32, h: u32, cfg: Config) -> (int, int) {
    target_dims(w, h, cfg.width, cfg.height, cfg.scale, cfg.aspect)
}

fn grid_dim_exec(n: u128, d: u128) -> (r: u32)
    requires
        0 < d < 0x1_0000_0000_0000_0000_0000_0000,
        n < 0x1_0000_0000_0000_0000_0000_0000,
    ensures
        r == grid_dim(n as int, d as int),
{
    let q = (2 * n + d) / (2 * d);
    if q < 1 {
        1
    } else if q > u32::MAX as u128 {
        u32::MAX
    } else {
        q as u32
    }
}

/// Computes the character grid for a source of `dims` (width, height)
/// pixels.
pub fn target_size(dims: (u32, u32), cfg: &Config) -> (r: (u32, u32))
    requires
        dims.0 >= 1,
        dims.1 >= 1,
    ensures
        (r.0 as int, r.1 as int) == target_size_spec(dims.0, dims.1, *cfg),
        r.0 >= 1,
        r.1 >= 1,
{
    let (w, h) = dims;
    let a: u128 = if cfg.aspect == 0 { 2000 } else { cfg.aspect as u128 };
    let w = w as u128;
    let h = h as u128;
    assert(0 < a * w < 0x1_0000_0000_0000_0000) by (nonlinear_arith)
        requires 1 <= a < 0x1_0000_0000, 1 <= w < 0x1_0000_0000;
    match (cfg.width, cfg.height, cfg.scale) {
        (Some(tw), Some(th), _) => (grid_dim_exec(tw as u128, 1), grid_dim_exec(1000 * th as u128, a)),
        (Some(tw), None, None) => {
            let tw = tw as u128;
            assert(1000 * h * tw < 0x1_0000_0000_0000_0000_0000) by (nonlinear_arith)
                requires h < 0x1_0000_0000, tw < 0x1_0000_0000;
            (grid_dim_exec(tw, 1), grid_dim_exec(1000 * h * tw, a * w))
        },
        (Some(tw), None, Some(s)) => {
            let tw = tw as u128;
            let s = s as u128;
            assert(h * tw < 0x1_0000_0000_0000_0000 && h * tw * s < 0x1_0000_0000_0000_0000_0000_0000)
                by (nonlinear_arith)
                requires h < 0x1_0000_0000, tw < 0x1_0000_0000, s < 0x1_0000_0000;
            assert(tw * s < 0x1_0000_0000_0000_0000) by (nonlinear_arith)
                requires tw < 0x1_0000_0000, s < 0x1_0000_0000;
            (grid_dim_exec(tw * s, 1000), grid_dim_exec(h * tw * s, a * w))
        },
        (None, Some(th), None) => {
            let th = th as u128;
            assert(w * th < 0x1_0000_0000_0000_0000) by (nonlinear_arith)
                requires w < 0x1_0000_0000, th < 0x1_0000_0000;
            (grid_dim_exec(w * th, h), grid_dim_exec(1000 * th, a))
        },
        (None, Some(th), Some(s)) => {
            let th = th as u128;
            let s = s as u128;
            assert(w * th < 0x1_0000_0000_0000_0000 && w * th * s < 0x1_0000_0000_0000_0000_0000_0000)
                by (nonlinear_arith)
                requires w < 0x1_0000_0000, th < 0x1_0000_0000, s < 0x1_0000_0000;
            assert(th * s < 0x1_0000_0000_0000_0000) by (nonlinear_arith)
                requires th < 0x1_0000_0000, s < 0x1_0000_0000;
            (grid_dim_exec(w * th * s, 1000 * h), grid_dim_exec(th * s, a))
        },
        (None, None, Some(s)) => {
            let s = s as u128;
            assert(w * s < 0x1_0000_0000_0000_0000 && h * s < 0x1_0000_0000_0000_0000)
                by (nonlinear_arith)
                requires w < 0x1_0000_0000, h < 0x1_0000_0000, s < 0x1_0000_0000;
            (grid_dim_exec(w * s, 1000), grid_dim_exec(h * s, a))
        },
        (None, None, None) => (80, grid_dim_exec(80_000 * h, a * w)),
    }
}

/// With the default configuration the grid is 80 columns wide and at least
/// one row high, whatever the source size.
pub proof fn default_width_is_80(w: u32, h: u32, cfg: Config)
    requires
        w >= 1,
        h >= 1,
        cfg.is_default(),
    ensures
        target_size_spec(w, h, cfg).0 == 80,
        target_size_spec(w, h, cfg).1 >= 1,
{
}

} // verus!
