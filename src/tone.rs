use vstd::prelude::*;
use crate::config::{Config, GAMMA_CURVE_LEN, GAMMA_STEP, LUM_HALF, LUM_ONE};

verus! {

/// `x` clamped to the luminance range `0..=LUM_ONE`.
pub open spec fn clamp_lum(x: int) -> int {
    if x < 0 {
        0
    } else if x > LUM_ONE {
        LUM_ONE as int
    } else {
        x
    }
}

/// One color channel composited onto black: scaled by `a / 255`, truncated.
pub open spec fn composite_channel(c: u8, a: u8) -> int {
    if a < 255 {
        c * a / 255
    } else {
        c as int
    }
}

/// Luminance `0.2126 r + 0.7152 g + 0.0722 b` in units of `1 / LUM_ONE`
/// of full luminance.
pub open spec fn luminance_spec(r: int, g: int, b: int) -> int {
    2126 * r + 7152 * g + 722 * b
}

/// Adds `b` thousandths of full luminance, clamped, unless `b` is 0.
pub open spec fn brightness_spec(l: int, b: int) -> int {
    if b == 0 {
        l
    } else {
        clamp_lum(l + 2550 * b)
    }
}

/// `l` on the 8-bit scale, rounded to nearest, halves up.
pub open spec fn level8(l: int) -> int {
    (l + 5000) / 10000
}

/// White when the 8-bit level of `l` reaches `t`, black otherwise.
pub open spec fn threshold_spec(l: int, t: int) -> int {
    if level8(l) >= t {
        LUM_ONE as int
    } else {
        0
    }
}

/// `l` through the gamma curve, interpolated linearly between samples and
/// truncated toward the lower sample; a curve of another length leaves `l`.
pub open spec fn gamma_spec(l: int, curve: Seq<u32>) -> int {
    if curve.len() != GAMMA_CURVE_LEN {
        l
    } else {
        let i = l / GAMMA_STEP as int;
        let f = l % GAMMA_STEP as int;
        if i >= GAMMA_CURVE_LEN - 1 {
            clamp_lum(curve[GAMMA_CURVE_LEN - 1] as int)
        } else {
            let lo = curve[i] as int;
            let hi = curve[i + 1] as int;
            if hi >= lo {
                clamp_lum(lo + (hi - lo) * f / GAMMA_STEP as int)
            } else {
                clamp_lum(lo - (lo - hi) * f / GAMMA_STEP as int)
            }
        }
    }
}

/// `(l - half) * c / 1000 + half`, clamped and truncated, unless `c` is 1000.
pub open spec fn contrast_spec(l: int, c: int) -> int {
    if c == 1000 {
        l
    } else {
        let n = (l - LUM_HALF) * c + LUM_HALF * 1000;
        if n <= 0 {
            0
        } else {
            clamp_lum(n / 1000)
        }
    }
}

/// The adjustment chain: brightness, then either the threshold or gamma
/// followed by contrast.
pub open spec fn adjust_spec(l: int, cfg: Config) -> int {
    let l1 = brightness_spec(l, cfg.brightness as int);
    match cfg.threshold {
        Some(t) => threshold_spec(l1, t as int),
        None => contrast_spec(gamma_spec(l1, cfg.gamma_curve@), cfg.contrast as int),
    }
}

/// The composited color of a pixel.
pub open spec fn composite_spec(px: (u8, u8, u8, u8)) -> (int, int, int) {
    (composite_channel(px.0, px.3), composite_channel(px.1, px.3), composite_channel(px.2, px.3))
}

/// The final luminance of a pixel.
pub open spec fn tone_spec(px: (u8, u8, u8, u8), cfg: Config) -> int {
    let c = composite_spec(px);
    adjust_spec(luminance_spec(c.0, c.1, c.2), cfg)
}

/// Composites an RGBA pixel onto black.
pub fn composite(r: u8, g: u8, b: u8, a: u8) -> (res: (u8, u8, u8))
    ensures
        (res.0 as int, res.1 as int, res.2 as int) == composite_spec((r, g, b, a)),
{
    if a < 255 {
        let a16 = a as u16;
        assert(r as u16 * a16 <= 255 * 255 && g as u16 * a16 <= 255 * 255 && b as u16 * a16 <= 255 * 255)
            by (nonlinear_arith)
            requires r <= 255, g <= 255, b <= 255, a16 <= 255;
        let rr = r as u16 * a16 / 255;
        let gg = g as u16 * a16 / 255;
        let bb = b as u16 * a16 / 255;
        (rr as u8, gg as u8, bb as u8)
    } else {
        (r, g, b)
    }
}

/// The luminance of a color, in `0..=LUM_ONE`.
pub fn luminance(r: u8, g: u8, b: u8) -> (l: u32)
    ensures
        l == luminance_spec(r as int, g as int, b as int),
        l <= LUM_ONE,
{
    2126 * r as u32 + 7152 * g as u32 + 722 * b as u32
}

/// Shifts luminance by `brightness` thousandths of full luminance.
pub fn apply_brightness(l: u32, brightness: i32) -> (r: u32)
    requires
        l <= LUM_ONE,
    ensures
        r == brightness_spec(l as int, brightness as int),
        r <= LUM_ONE,
{
    if brightness == 0 {
        l
    } else {
        let v: i64 = l as i64 + 2550 * brightness as i64;
        if v < 0 {
            0
        } else if v > LUM_ONE as i64 {
            LUM_ONE
        } else {
            v as u32
        }
    }
}

/// Black or white against the 8-bit level `t`.
pub fn apply_threshold(l: u32, t: u8) -> (r: u32)
    requires
        l <= LUM_ONE,
    ensures
        r == threshold_spec(l as int, t as int),
{
    if (l + 5000) / 10000 >= t as u32 {
        LUM_ONE
    } else {
        0
    }
}

/// Passes luminance through a gamma curve.
pub fn apply_gamma(l: u32, curve: &Vec<u32>) -> (r: u32)
    requires
        l <= LUM_ONE,
    ensures
        r == gamma_spec(l as int, curve@),
        r <= LUM_ONE,
{
    if curve.len() != GAMMA_CURVE_LEN {
        return l;
    }
    let i = (l / GAMMA_STEP) as usize;
    let f = (l % GAMMA_STEP) as u64;
    let v: u64 = if i >= GAMMA_CURVE_LEN - 1 {
        curve[GAMMA_CURVE_LEN - 1] as u64
    } else {
        let lo = curve[i] as u64;
        let hi = curve[i + 1] as u64;
        if hi >= lo {
            assert((hi - lo) * f <= 0xFFFF_FFFF * 10000) by (nonlinear_arith)
                requires hi - lo <= 0xFFFF_FFFF, f < 10000;
            lo + (hi - lo) * f / GAMMA_STEP as u64
        } else {
            assert((lo - hi) * f <= (lo - hi) * 10000) by (nonlinear_arith)
                requires lo >= hi, f < 10000;
            assert((lo - hi) * f / 10000 <= lo - hi) by (nonlinear_arith)
                requires (lo - hi) * f <= (lo - hi) * 10000, lo >= hi;
            lo - (lo - hi) * f / GAMMA_STEP as u64
        }
    };
    if v > LUM_ONE as u64 {
        LUM_ONE
    } else {
        v as u32
    }
}

/// Stretches luminance around mid-gray by `contrast` thousandths.
pub fn apply_contrast(l: u32, contrast: i32) -> (r: u32)
    requires
        l <= LUM_ONE,
    ensures
        r == contrast_spec(l as int, contrast as int),
        r <= LUM_ONE,
{
    if contrast == 1000 {
        return l;
    }
    let d: i64 = l as i64 - LUM_HALF as i64;
    let c: i64 = contrast as i64;
    assert(-1_275_000 * 0x8000_0000 <= d * c <= 1_275_000 * 0x8000_0000) by (nonlinear_arith)
        requires -1_275_000 <= d <= 1_275_000, -0x8000_0000 <= c <= 0x7FFF_FFFF;
    let n: i64 = d * c + LUM_HALF as i64 * 1000;
    if n <= 0 {
        0
    } else {
        let q = n / 1000;
        if q > LUM_ONE as i64 {
            LUM_ONE
        } else {
            q as u32
        }
    }
}

/// The final luminance of an RGBA pixel, with the composited color it is
/// drawn in.
pub fn tone_map(px: (u8, u8, u8, u8), cfg: &Config) -> (res: (u32, (u8, u8, u8)))
    ensures
        res.0 == tone_spec(px, *cfg),
        res.0 <= LUM_ONE,
        (res.1.0 as int, res.1.1 as int, res.1.2 as int) == composite_spec(px),
{
    let (r, g, b, a) = px;
    let rgb = composite(r, g, b, a);
    let l0 = luminance(rgb.0, rgb.1, rgb.2);
    let l1 = apply_brightness(l0, cfg.brightness);
    let l = match cfg.threshold {
        Some(t) => apply_threshold(l1, t),
        None => {
            let lg = apply_gamma(l1, &cfg.gamma_curve);
            apply_contrast(lg, cfg.contrast)
        },
    };
    (l, rgb)
}

/// With brightness 0, gamma 1, contrast 1 and no threshold, the final
/// luminance is the luminance of the composited color itself.
pub proof fn identity_adjustment(px: (u8, u8, u8, u8), cfg: Config)
    requires
        cfg.brightness == 0,
        cfg.gamma_curve@.len() == 0,
        cfg.contrast == 1000,
        cfg.threshold is None,
    ensures
        ({
            let c = composite_spec(px);
            tone_spec(px, cfg) == luminance_spec(c.0, c.1, c.2)
        }),
{
}

/// With a threshold set, the final luminance is black or white, whatever the
/// gamma curve and contrast.
pub proof fn threshold_is_binary(px: (u8, u8, u8, u8), cfg: Config)
    requires
        cfg.threshold is Some,
    ensures
        tone_spec(px, cfg) == 0 || tone_spec(px, cfg) == LUM_ONE,
{
}

} // verus!
