use vstd::prelude::*;
use crate::config::{default_charset, DEFAULT_CHARSET, LUM_ONE};
use crate::text::chars_of;
use crate::tone::clamp_lum;

verus! {

/// The charset in use: `cs`, or the default one when `cs` is empty.
pub open spec fn effective_charset(cs: Seq<char>) -> Seq<char> {
    if cs.len() == 0 {
        default_charset()
    } else {
        cs
    }
}

/// The index chosen among `n` characters for luminance `l`: the luminance
/// (inverted if asked, then clamped) scaled to `0..=n-1` and rounded to the
/// nearest index, halves up.
pub open spec fn quant_index(l: int, n: int, invert: bool) -> int {
    let v = clamp_lum(if invert { LUM_ONE - l } else { l });
    (2 * v * (n - 1) + LUM_ONE) / (2 * LUM_ONE as int)
}

/// The character drawn for luminance `l` with charset `cs`.
pub open spec fn glyph_spec(l: int, cs: Seq<char>, invert: bool) -> char {
    let c = effective_charset(cs);
    c[quant_index(l, c.len() as int, invert)]
}

/// The characters of `charset`, or of the default charset when it is empty.
pub fn charset_chars(charset: &str) -> (r: Vec<char>)
    ensures
        r@ == effective_charset(charset@),
        r@.len() >= 1,
{
    let chars = chars_of(charset);
    if chars.len() == 0 {
        let d = chars_of(DEFAULT_CHARSET);
        proof {
            reveal_strlit(" .:-=+*#%@");
            assert(d@ =~= default_charset());
        }
        d
    } else {
        chars
    }
}

/// The index of the character for luminance `l` among `chars`.
pub fn char_index(l: u32, n: usize, invert: bool) -> (r: usize)
    requires
        n >= 1,
    ensures
        r == quant_index(l as int, n as int, invert),
        r < n,
{
    let v: u64 = if invert {
        if l > LUM_ONE { 0 } else { (LUM_ONE - l) as u64 }
    } else {
        if l > LUM_ONE { LUM_ONE as u64 } else { l as u64 }
    };
    let m = (n - 1) as u128;
    let vv = v as u128;
    assert(2 * vv * m + LUM_ONE < 0x1_0000_0000_0000_0000_0000_0000) by (nonlinear_arith)
        requires vv <= LUM_ONE, m < 0x1_0000_0000_0000_0000;
    let q = (2 * vv * m + LUM_ONE as u128) / (2 * LUM_ONE as u128);
    proof {
        lemma_index_bound(vv as int, n as int);
    }
    q as usize
}

proof fn lemma_index_bound(v: int, n: int)
    requires
        0 <= v <= LUM_ONE,
        n >= 1,
    ensures
        0 <= (2 * v * (n - 1) + LUM_ONE) / (2 * LUM_ONE as int) < n,
{
    assert(0 <= 2 * v * (n - 1) + LUM_ONE < 2 * LUM_ONE * n) by (nonlinear_arith)
        requires 0 <= v <= LUM_ONE, n >= 1;
    assert(0 <= (2 * v * (n - 1) + LUM_ONE) / (2 * LUM_ONE as int) < n) by (nonlinear_arith)
        requires 0 <= 2 * v * (n - 1) + LUM_ONE < 2 * LUM_ONE * n;
}

/// The character for luminance `l` among `chars` (non-empty).
pub fn pick_char(l: u32, chars: &Vec<char>, invert: bool) -> (r: char)
    requires
        chars@.len() >= 1,
    ensures
        r == chars@[quant_index(l as int, chars@.len() as int, invert)],
{
    chars[char_index(l, chars.len(), invert)]
}

/// The character of `charset` for luminance `lum`.
pub fn map_luma_to_char(lum: u32, charset: &str, invert: bool) -> (r: char)
    ensures
        r == glyph_spec(lum as int, charset@, invert),
{
    let chars = charset_chars(charset);
    pick_char(lum, &chars, invert)
}

/// For every luminance and every non-empty charset, the chosen index lies
/// within the charset.
pub proof fn index_in_range(l: int, n: int, invert: bool)
    requires
        n >= 1,
    ensures
        0 <= quant_index(l, n, invert) < n,
{
    let v = clamp_lum(if invert { LUM_ONE - l } else { l });
    lemma_index_bound(v, n);
}

/// Inverted black draws as plain white and inverted white as plain black;
/// more generally, inverting `l` is drawing `LUM_ONE - l`.
pub proof fn inversion_symmetry(l: int, cs: Seq<char>)
    requires
        0 <= l <= LUM_ONE,
    ensures
        glyph_spec(0, cs, true) == glyph_spec(LUM_ONE as int, cs, false),
        glyph_spec(LUM_ONE as int, cs, true) == glyph_spec(0, cs, false),
        glyph_spec(l, cs, true) == glyph_spec(LUM_ONE - l, cs, false),
{
}

} // verus!
