use jpg2ascii::config::{Config, Filter, LUM_HALF, LUM_ONE};
use jpg2ascii::quantize::{char_index, charset_chars, map_luma_to_char};
use jpg2ascii::render::{join_lines, render_line, render_lines};
use jpg2ascii::size::target_size;
use jpg2ascii::tone::{
    apply_brightness, apply_contrast, apply_gamma, apply_threshold, composite, luminance, tone_map,
};

fn gamma_curve(gamma: f64) -> Vec<u32> {
    (0..256u32)
        .map(|i| ((i as f64 / 255.0).powf(1.0 / gamma) * LUM_ONE as f64).round() as u32)
        .collect()
}

fn fraction(l: u32) -> f64 {
    l as f64 / LUM_ONE as f64
}

#[test]
fn test_luminance_basic() {
    assert!((fraction(luminance(0, 0, 0)) - 0.0).abs() < 1e-6);
    assert!((fraction(luminance(255, 255, 255)) - 1.0).abs() < 1e-6);
    let gray = fraction(luminance(128, 128, 128));
    assert!(gray > 0.4 && gray < 0.6);
}

#[test]
fn test_map_luma_to_char_invert() {
    let cs = " .#";
    let c1 = map_luma_to_char(0, cs, false);
    let c2 = map_luma_to_char(LUM_ONE, cs, false);
    let c3 = map_luma_to_char(0, cs, true);
    assert_eq!(c1, ' ');
    assert_eq!(c2, '#');
    assert_eq!(c3, '#');
}

#[test]
fn test_target_size_defaults() {
    let cfg = Config::default();
    let (w, h) = target_size((400, 200), &cfg);
    assert_eq!(w, 80);
    assert!(h > 0);
}

#[test]
fn default_target_is_80_wide_for_many_sizes() {
    let cfg = Config::default();
    for &(w, h) in &[(1, 1), (400, 200), (7, 5000), (5000, 7), (u32::MAX, u32::MAX)] {
        let (tw, th) = target_size((w, h), &cfg);
        assert_eq!(tw, 80);
        assert!(th >= 1);
    }
    assert_eq!(target_size((400, 200), &cfg), (80, 20));
    assert_eq!(target_size((5000, 7), &cfg), (80, 1));
}

#[test]
fn target_size_each_case() {
    let mut cfg = Config::default();
    cfg.width = Some(100);
    cfg.height = Some(50);
    assert_eq!(target_size((400, 200), &cfg), (100, 25));
    cfg.height = None;
    assert_eq!(target_size((400, 200), &cfg), (100, 25));
    cfg.scale = Some(1500);
    assert_eq!(target_size((400, 200), &cfg), (150, 38));
    cfg.width = None;
    cfg.height = Some(30);
    cfg.scale = None;
    assert_eq!(target_size((400, 200), &cfg), (60, 15));
    cfg.scale = Some(2000);
    assert_eq!(target_size((400, 200), &cfg), (120, 30));
    cfg.height = None;
    cfg.scale = Some(500);
    assert_eq!(target_size((400, 200), &cfg), (200, 50));
    cfg.scale = Some(1);
    assert_eq!(target_size((400, 200), &cfg), (1, 1));
    cfg.scale = None;
    cfg.aspect = 0;
    assert_eq!(target_size((400, 200), &cfg), (80, 20));
    cfg.aspect = 1000;
    assert_eq!(target_size((400, 200), &cfg), (80, 40));
}

#[test]
fn composite_scales_by_alpha() {
    assert_eq!(composite(200, 100, 50, 128), (100, 50, 25));
    assert_eq!(composite(200, 100, 50, 255), (200, 100, 50));
    assert_eq!(composite(200, 100, 50, 0), (0, 0, 0));
}

#[test]
fn luminance_weights() {
    assert_eq!(luminance(255, 0, 0), 542_130);
    assert_eq!(luminance(0, 255, 0), 1_823_760);
    assert_eq!(luminance(0, 0, 255), 184_110);
}

#[test]
fn brightness_offsets_and_clamps() {
    assert_eq!(apply_brightness(0, 500), LUM_HALF);
    assert_eq!(apply_brightness(LUM_ONE, 500), LUM_ONE);
    assert_eq!(apply_brightness(1000, -1000), 0);
    assert_eq!(apply_brightness(1234, 0), 1234);
}

#[test]
fn threshold_rounds_to_eight_bits() {
    assert_eq!(apply_threshold(1_275_000, 128), LUM_ONE);
    assert_eq!(apply_threshold(1_265_000, 128), 0);
    assert_eq!(apply_threshold(0, 0), LUM_ONE);
}

#[test]
fn contrast_around_midpoint() {
    assert_eq!(apply_contrast(LUM_HALF, 2000), LUM_HALF);
    assert_eq!(apply_contrast(1_912_500, 2000), LUM_ONE);
    assert_eq!(apply_contrast(1_593_750, 2000), 1_912_500);
    assert_eq!(apply_contrast(LUM_ONE, 0), LUM_HALF);
    assert_eq!(apply_contrast(0, 3000), 0);
}

#[test]
fn gamma_curve_is_interpolated() {
    assert_eq!(apply_gamma(777, &Vec::new()), 777);
    let identity: Vec<u32> = (0..256u32).map(|i| i * 10_000).collect();
    assert_eq!(apply_gamma(1_234_567, &identity), 1_234_567);
    let curve = gamma_curve(2.2);
    let half = fraction(apply_gamma(LUM_HALF, &curve));
    assert!((half - 0.5f64.powf(1.0 / 2.2)).abs() < 1e-3);
    assert_eq!(apply_gamma(LUM_ONE, &curve), LUM_ONE);
    assert_eq!(apply_gamma(0, &curve), 0);
}

#[test]
fn identity_adjustment_keeps_luminance() {
    let cfg = Config::default();
    for &(r, g, b) in &[(0, 0, 0), (12, 200, 99), (255, 255, 255), (128, 1, 254)] {
        assert_eq!(tone_map((r, g, b, 255), &cfg).0, luminance(r, g, b));
    }
    let (l, rgb) = tone_map((200, 100, 50, 128), &cfg);
    assert_eq!(rgb, (100, 50, 25));
    assert_eq!(l, luminance(100, 50, 25));
}

#[test]
fn threshold_outputs_black_or_white() {
    let mut cfg = Config::default();
    cfg.threshold = Some(100);
    cfg.contrast = 3000;
    cfg.gamma_curve = gamma_curve(0.5);
    cfg.brightness = 100;
    for v in 0..=255u8 {
        for &a in &[0u8, 77, 255] {
            let l = tone_map((v, 255 - v, v / 2, a), &cfg).0;
            assert!(l == 0 || l == LUM_ONE);
        }
    }
}

#[test]
fn index_stays_in_range() {
    for n in [1usize, 2, 3, 10, 1000, usize::MAX] {
        for l in [0u32, 1, LUM_HALF, LUM_ONE - 1, LUM_ONE, u32::MAX] {
            assert!(char_index(l, n, false) < n);
            assert!(char_index(l, n, true) < n);
        }
    }
    assert_eq!(char_index(0, 10, false), 0);
    assert_eq!(char_index(LUM_ONE, 10, false), 9);
    assert_eq!(char_index(LUM_HALF, 10, false), 5);
    assert_eq!(char_index(LUM_HALF, 3, false), 1);
}

#[test]
fn inversion_is_symmetric() {
    for cs in [" .#", "", "ab", "x"] {
        assert_eq!(map_luma_to_char(0, cs, true), map_luma_to_char(LUM_ONE, cs, false));
        assert_eq!(map_luma_to_char(LUM_ONE, cs, true), map_luma_to_char(0, cs, false));
    }
}

#[test]
fn empty_charset_uses_default() {
    assert_eq!(charset_chars(""), " .:-=+*#%@".chars().collect::<Vec<char>>());
    assert_eq!(map_luma_to_char(LUM_ONE, "", false), '@');
    assert_eq!(map_luma_to_char(0, "", false), ' ');
}

#[test]
fn color_cells_are_wrapped_in_escapes() {
    let mut cfg = Config::default();
    cfg.color = true;
    let px = vec![255u8, 0, 0, 255, 10, 20, 30, 0];
    let line = render_line(&px, 2, 1, 0, &cfg);
    assert_eq!(line, "\x1b[38;2;255;0;0m:\x1b[0m\x1b[38;2;0;0;0m \x1b[0m");
}

#[test]
fn rows_render_in_order() {
    let cfg = Config::default();
    let px = vec![
        0u8, 0, 0, 255, 255, 255, 255, 255, //
        255, 255, 255, 255, 0, 0, 0, 255,
    ];
    let lines = render_lines(&px, 2, 2, &cfg);
    assert_eq!(lines, vec![" @".to_string(), "@ ".to_string()]);
    let mut inv = Config::default();
    inv.invert = true;
    inv.filter = Filter::Nearest;
    assert_eq!(render_lines(&px, 2, 2, &inv), vec!["@ ".to_string(), " @".to_string()]);
}

#[test]
fn lines_join_with_newlines() {
    assert_eq!(join_lines(&vec!["ab".to_string(), "cd".to_string()]), "ab\ncd");
    assert_eq!(join_lines(&vec!["x".to_string()]), "x");
    assert_eq!(join_lines(&Vec::new()), "");
    assert_eq!(join_lines(&vec![String::new(), String::new()]), "\n");
}
