use vstd::prelude::*;
use crate::config::Config;
use crate::quantize::{charset_chars, effective_charset, glyph_spec, pick_char};
use crate::text::{chars_of, string_from_chars};
use crate::tone::{composite_spec, luminance_spec, tone_map, tone_spec};

verus! {

pub open spec fn digit_chars() -> Seq<char> {
    seq!['0', '1', '2', '3', '4', '5', '6', '7', '8', '9']
}

/// The decimal digits of `n`, without leading zeros.
pub open spec fn decimal(n: nat) -> Seq<char>
    decreases n,
{
    if n < 10 {
        seq![digit_chars()[n as int]]
    } else {
        decimal(n / 10).push(digit_chars()[(n % 10) as int])
    }
}

/// The escape sequence that selects the 24-bit foreground color `c`.
pub open spec fn color_open(c: (int, int, int)) -> Seq<char> {
    seq!['\x1b', '[', '3', '8', ';', '2', ';'] + decimal(c.0 as nat) + seq![';'] + decimal(
        c.1 as nat,
    ) + seq![';'] + decimal(c.2 as nat) + seq!['m']
}

/// The escape sequence that resets all attributes.
pub open spec fn color_reset() -> Seq<char> {
    seq!['\x1b', '[', '0', 'm']
}

/// The text of one cell: the character for the pixel's final luminance,
/// wrapped in its composited color when color is on.
pub open spec fn cell_spec(px: (u8, u8, u8, u8), cfg: Config) -> Seq<char> {
    let ch = glyph_spec(tone_spec(px, cfg), cfg.charset@, cfg.invert);
    if cfg.color {
        color_open(composite_spec(px)) + seq![ch] + color_reset()
    } else {
        seq![ch]
    }
}

/// Pixel `i` of an RGBA buffer.
pub open spec fn pixel_at(px: Seq<u8>, i: int) -> (u8, u8, u8, u8) {
    (px[4 * i], px[4 * i + 1], px[4 * i + 2], px[4 * i + 3])
}

/// The first `k` cells of row `y` of a buffer `tw` pixels wide.
pub open spec fn row_text(px: Seq<u8>, tw: int, y: int, cfg: Config, k: int) -> Seq<char>
    decreases k,
{
    if k <= 0 {
        Seq::empty()
    } else {
        row_text(px, tw, y, cfg, k - 1) + cell_spec(pixel_at(px, y * tw + k - 1), cfg)
    }
}

/// The rendered lines of a `tw` by `th` buffer, top to bottom.
pub open spec fn frame_lines(px: Seq<u8>, tw: int, th: int, cfg: Config) -> Seq<Seq<char>> {
    Seq::new(th as nat, |y: int| row_text(px, tw, y, cfg, tw))
}

/// Lines joined by newlines, with none after the last.
pub open spec fn join_spec(lines: Seq<Seq<char>>) -> Seq<char>
    decreases lines.len(),
{
    if lines.len() == 0 {
        Seq::empty()
    } else if lines.len() == 1 {
        lines[0]
    } else {
        join_spec(lines.drop_last()) + seq!['\n'] + lines.last()
    }
}

/// The character views of a sequence of strings.
pub open spec fn string_views(v: Seq<String>) -> Seq<Seq<char>> {
    v.map_values(|s: String| s@)
}

/// Without color, a row of `k` cells is `k` characters long.
pub proof fn row_length(px: Seq<u8>, tw: int, y: int, cfg: Config, k: int)
    requires
        !cfg.color,
        k >= 0,
    ensures
        row_text(px, tw, y, cfg, k).len() == k,
    decreases k,
{
    if k > 0 {
        row_length(px, tw, y, cfg, k - 1);
    }
}

/// Two configurations that give every pixel the same cell give every row
/// the same text.
pub proof fn rows_agree(px: Seq<u8>, tw: int, y: int, c1: Config, c2: Config, k: int)
    requires
        forall|p: (u8, u8, u8, u8)| #[trigger] cell_spec(p, c1) == cell_spec(p, c2),
    ensures
        row_text(px, tw, y, c1, k) == row_text(px, tw, y, c2, k),
    decreases k,
{
    if k > 0 {
        rows_agree(px, tw, y, c1, c2, k - 1);
        assert(cell_spec(pixel_at(px, y * tw + k - 1), c1) == cell_spec(
            pixel_at(px, y * tw + k - 1),
            c2,
        ));
    }
}

/// Two configurations that give every pixel the same cell give every buffer
/// the same lines.
pub proof fn frames_agree(px: Seq<u8>, tw: int, th: int, c1: Config, c2: Config)
    requires
        forall|p: (u8, u8, u8, u8)| #[trigger] cell_spec(p, c1) == cell_spec(p, c2),
    ensures
        frame_lines(px, tw, th, c1) == frame_lines(px, tw, th, c2),
{
    assert forall|y: int| 0 <= y < frame_lines(px, tw, th, c1).len() implies #[trigger] frame_lines(
        px,
        tw,
        th,
        c1,
    )[y] == frame_lines(px, tw, th, c2)[y] by {
        rows_agree(px, tw, y, c1, c2, tw);
    }
    assert(frame_lines(px, tw, th, c1) =~= frame_lines(px, tw, th, c2));
}

/// With brightness 0, gamma 1, contrast 1, no threshold and no color, a
/// pixel's cell is the character for the luminance of its composited color.
pub proof fn identity_cell(px: (u8, u8, u8, u8), cfg: Config)
    requires
        cfg.brightness == 0,
        cfg.gamma_curve@.len() == 0,
        cfg.contrast == 1000,
        cfg.threshold is None,
        !cfg.color,
    ensures
        ({
            let c = composite_spec(px);
            cell_spec(px, cfg) == seq![
                glyph_spec(luminance_spec(c.0, c.1, c.2), cfg.charset@, cfg.invert),
            ]
        }),
{
}

fn push_all(out: &mut Vec<char>, s: &Vec<char>)
    ensures
        final(out)@ == old(out)@ + s@,
{
    let ghost start = out@;
    for i in 0..s.len()
        invariant
            out@ == start + s@.take(i as int),
    {
        out.push(s[i]);
        proof {
            assert(s@.take(i + 1) =~= s@.take(i as int).push(s@[i as int]));
        }
    }
    proof {
        assert(s@.take(s@.len() as int) =~= s@);
    }
}

fn digit(d: u8) -> (c: char)
    requires
        d < 10,
    ensures
        c == digit_chars()[d as int],
{
    match d {
        0 => '0',
        1 => '1',
        2 => '2',
        3 => '3',
        4 => '4',
        5 => '5',
        6 => '6',
        7 => '7',
        8 => '8',
        _ => '9',
    }
}

fn push_decimal(out: &mut Vec<char>, n: u8)
    ensures
        final(out)@ == old(out)@ + decimal(n as nat),
{
    let ghost start = out@;
    if n >= 100 {
        out.push(digit(n / 100));
        out.push(digit(n / 10 % 10));
        out.push(digit(n % 10));
        proof {
            assert(decimal((n / 100) as nat) == seq![digit_chars()[(n / 100) as int]]);
            assert(decimal((n / 10) as nat) =~= decimal((n / 100) as nat).push(
                digit_chars()[(n / 10 % 10) as int],
            ));
            assert(out@ =~= start + decimal(n as nat));
        }
    } else if n >= 10 {
        out.push(digit(n / 10));
        out.push(digit(n % 10));
        proof {
            assert(decimal((n / 10) as nat) == seq![digit_chars()[(n / 10) as int]]);
            assert(out@ =~= start + decimal(n as nat));
        }
    } else {
        out.push(digit(n));
        proof {
            assert(out@ =~= start + decimal(n as nat));
        }
    }
}

fn push_cell(out: &mut Vec<char>, px: (u8, u8, u8, u8), cfg: &Config, chars: &Vec<char>)
    requires
        chars@ == effective_charset(cfg.charset@),
    ensures
        final(out)@ == old(out)@ + cell_spec(px, *cfg),
{
    let ghost start = out@;
    let (l, rgb) = tone_map(px, cfg);
    let ch = pick_char(l, chars, cfg.invert);
    if cfg.color {
        out.push('\x1b');
        out.push('[');
        out.push('3');
        out.push('8');
        out.push(';');
        out.push('2');
        out.push(';');
        push_decimal(out, rgb.0);
        out.push(';');
        push_decimal(out, rgb.1);
        out.push(';');
        push_decimal(out, rgb.2);
        out.push('m');
        out.push(ch);
        out.push('\x1b');
        out.push('[');
        out.push('0');
        out.push('m');
        proof {
            let c = composite_spec(px);
            assert(c == (rgb.0 as int, rgb.1 as int, rgb.2 as int));
            assert(out@ =~= start + (color_open(c) + seq![ch] + color_reset()));
        }
    } else {
        out.push(ch);
        proof {
            assert(out@ =~= start + seq![ch]);
        }
    }
}

/// Renders row `y` of a `tw` by `th` RGBA buffer.
pub fn render_line(pixels: &Vec<u8>, tw: u32, th: u32, y: u32, cfg: &Config) -> (r: String)
    requires
        pixels@.len() == 4 * tw * th,
        y < th,
    ensures
        r@ == row_text(pixels@, tw as int, y as int, *cfg, tw as int),
{
    let chars = charset_chars(cfg.charset.as_str());
    let line = render_line_chars(pixels, tw, th, y, cfg, &chars);
    string_from_chars(&line)
}

fn render_line_chars(
    pixels: &Vec<u8>,
    tw: u32,
    th: u32,
    y: u32,
    cfg: &Config,
    chars: &Vec<char>,
) -> (r: Vec<char>)
    requires
        pixels@.len() == 4 * tw * th,
        y < th,
        chars@ == effective_charset(cfg.charset@),
    ensures
        r@ == row_text(pixels@, tw as int, y as int, *cfg, tw as int),
{
    let mut line: Vec<char> = Vec::new();
    let total = pixels.len();
    assert(y * tw + tw <= tw * th && 4 * tw * th == 4 * (tw * th)) by (nonlinear_arith)
        requires y < th;
    let row_start: usize = (y as usize) * (tw as usize);
    for x in 0..tw
        invariant
            pixels@.len() == 4 * tw * th,
            total == pixels@.len(),
            row_start == y * tw,
            y * tw + tw <= tw * th,
            4 * tw * th == 4 * (tw * th),
            chars@ == effective_charset(cfg.charset@),
            line@ == row_text(pixels@, tw as int, y as int, *cfg, x as int),
    {
        let i: usize = 4 * (row_start + x as usize);
        let px = (pixels[i], pixels[i + 1], pixels[i + 2], pixels[i + 3]);
        push_cell(&mut line, px, cfg, chars);
    }
    line
}

/// Renders a `tw` by `th` RGBA buffer as `th` lines, top to bottom.
pub fn render_lines(pixels: &Vec<u8>, tw: u32, th: u32, cfg: &Config) -> (r: Vec<String>)
    requires
        pixels@.len() == 4 * tw * th,
    ensures
        string_views(r@) == frame_lines(pixels@, tw as int, th as int, *cfg),
        r@.len() == th,
{
    let chars = charset_chars(cfg.charset.as_str());
    let mut lines: Vec<String> = Vec::new();
    for y in 0..th
        invariant
            pixels@.len() == 4 * tw * th,
            chars@ == effective_charset(cfg.charset@),
            string_views(lines@) =~= frame_lines(pixels@, tw as int, th as int, *cfg).take(
                y as int,
            ),
            lines@.len() == y,
    {
        let line = render_line_chars(pixels, tw, th, y, cfg, &chars);
        let ghost before = lines@;
        lines.push(string_from_chars(&line));
        proof {
            assert(string_views(lines@) =~= string_views(before).push(line@));
            assert(frame_lines(pixels@, tw as int, th as int, *cfg).take(y + 1) =~= frame_lines(
                pixels@,
                tw as int,
                th as int,
                *cfg,
            ).take(y as int).push(line@));
        }
    }
    proof {
        assert(frame_lines(pixels@, tw as int, th as int, *cfg).take(th as int) =~= frame_lines(
            pixels@,
            tw as int,
            th as int,
            *cfg,
        ));
    }
    lines
}

/// Joins lines with newlines between them.
pub fn join_lines(lines: &Vec<String>) -> (r: String)
    ensures
        r@ == join_spec(string_views(lines@)),
{
    let ghost views = string_views(lines@);
    let mut out: Vec<char> = Vec::new();
    for i in 0..lines.len()
        invariant
            views == string_views(lines@),
            out@ == join_spec(views.take(i as int)),
    {
        proof {
            assert(views.take(i + 1).drop_last() =~= views.take(i as int));
        }
        if i > 0 {
            out.push('\n');
        }
        let cs = chars_of(lines[i].as_str());
        push_all(&mut out, &cs);
        proof {
            if i == 0 {
                assert(views.take(1) =~= seq![views[0]]);
            }
        }
    }
    proof {
        assert(views.take(lines.len() as int) =~= views);
    }
    string_from_chars(&out)
}

} // verus!
