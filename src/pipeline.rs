use vstd::prelude::*;
use image::ImageError;
use image::AnimationDecoder;
use crate::buffer::PixelBuffer;
use crate::config::{Config, Filter};
use crate::render::{cell_spec, frames_agree, frame_lines, join_lines, join_spec, render_lines, string_views};
use crate::size::{target_size, target_size_spec};

verus! {

#[verifier::external_type_specification]
#[verifier::external_body]
pub struct ExImageError(ImageError);

/// Why a conversion failed.
#[derive(Debug)]
pub enum ConvertError {
    /// The payload is not a supported, well-formed image.
    Decode(ImageError),
}

/// What `image::load_from_memory` followed by `to_rgba8` makes of the payload
/// `b`: width, height and RGBA bytes, or `None` where decoding fails.
pub uninterp spec fn decoded(b: Seq<u8>) -> Option<(u32, u32, Seq<u8>)>;

/// What the GIF decoder of `image` makes of the payload `b`: every frame as
/// a full RGBA canvas (width, height, bytes) in decode order, or `None` where
/// decoding fails.
pub uninterp spec fn decoded_frames(b: Seq<u8>) -> Option<Seq<(u32, u32, Seq<u8>)>>;

/// What `image::imageops::resize` makes of the `w` by `h` RGBA image `src`
/// at `tw` by `th` pixels with `filter`; stated only of the filters whose
/// kernels use exact arithmetic alone (see `exact_filter`).
pub uninterp spec fn resampled(
    src: Seq<u8>,
    w: u32,
    h: u32,
    tw: u32,
    th: u32,
    filter: Filter,
) -> Seq<u8>;

/// Relies on `image::load_from_memory` and `DynamicImage::to_rgba8`: the
/// payload decoded (format guessed from its bytes) and brought to RGBA.
#[verifier::external_body]
fn decode_image(bytes: &[u8]) -> (r: Result<PixelBuffer, ImageError>)
    ensures
        r is Err <==> decoded(bytes@) is None,
        r is Ok ==> ({
            let d = decoded(bytes@)->Some_0;
            &&& r->Ok_0.width == d.0
            &&& r->Ok_0.height == d.1
            &&& r->Ok_0.pixels@ == d.2
            &&& r->Ok_0.wf()
        }),
{
    let b = image::load_from_memory(bytes)?.to_rgba8();
    Ok(PixelBuffer { width: b.width(), height: b.height(), pixels: b.into_raw() })
}

/// Relies on `GifDecoder::new`, `AnimationDecoder::into_frames`,
/// `Frames::collect_frames` and `Frame::into_buffer`: every frame of a GIF
/// payload as a full RGBA canvas, in decode order, or the first error met.
#[verifier::external_body]
fn decode_gif_frames(bytes: &[u8]) -> (r: Result<Vec<PixelBuffer>, ImageError>)
    ensures
        r is Err <==> decoded_frames(bytes@) is None,
        r is Ok ==> ({
            let fs = decoded_frames(bytes@)->Some_0;
            &&& r->Ok_0@.len() == fs.len()
            &&& forall|i: int| #![trigger r->Ok_0@[i]] 0 <= i < fs.len() ==> {
                &&& r->Ok_0@[i].width == fs[i].0
                &&& r->Ok_0@[i].height == fs[i].1
                &&& r->Ok_0@[i].pixels@ == fs[i].2
                &&& r->Ok_0@[i].wf()
            }
        }),
{
    let decoder = image::codecs::gif::GifDecoder::new(std::io::Cursor::new(bytes))?;
    let frames = decoder.into_frames().collect_frames()?;
    Ok(frames.into_iter().map(|f| f.into_buffer()).map(|b| PixelBuffer {
        width: b.width(),
        height: b.height(),
        pixels: b.into_raw(),
    }).collect())
}

/// The filters whose kernels use only exactly rounded arithmetic, so that
/// resampling with them gives the same bytes for the same arguments. The
/// other kernels call `sin`, `exp` or `powi`, whose precision is unspecified.
pub open spec fn exact_filter(f: Filter) -> bool {
    f == Filter::Nearest || f == Filter::Triangle
}

/// Relies on `image::imageops::resize`: the image resampled to exactly `tw`
/// by `th` pixels, as RGBA bytes row by row; an image already of that size
/// is copied unchanged.
#[verifier::external_body]
fn resample(img: &PixelBuffer, tw: u32, th: u32, filter: Filter) -> (r: Vec<u8>)
    requires
        img.wf(),
    ensures
        exact_filter(filter) ==> r@ == resampled(img.pixels@, img.width, img.height, tw, th, filter),
        r@.len() == 4 * tw * th,
        tw == img.width && th == img.height ==> r@ == img.pixels@,
{
    let f = match filter {
        Filter::Nearest => image::imageops::FilterType::Nearest,
        Filter::Triangle => image::imageops::FilterType::Triangle,
        Filter::CatmullRom => image::imageops::FilterType::CatmullRom,
        Filter::Gaussian => image::imageops::FilterType::Gaussian,
        Filter::Lanczos3 => image::imageops::FilterType::Lanczos3,
    };
    let src = image::ImageBuffer::<image::Rgba<u8>, &[u8]>::from_raw(img.width, img.height, img.pixels.as_slice()).unwrap();
    image::imageops::resize(&src, tw, th, f).into_raw()
}

/// `n`, with 0 taken as 1: an empty source is sized as a one-pixel one.
pub open spec fn at_least_one(n: u32) -> u32 {
    if n == 0 {
        1
    } else {
        n
    }
}

/// The character grid for a `w` by `h` source.
pub open spec fn grid_of(w: u32, h: u32, cfg: Config) -> (int, int) {
    target_size_spec(at_least_one(w), at_least_one(h), cfg)
}

/// The lines of a `w` by `h` source whose RGBA buffer, resampled to its
/// grid, is `resized`.
pub open spec fn lines_of(w: u32, h: u32, resized: Seq<u8>, cfg: Config) -> Seq<Seq<char>> {
    let t = grid_of(w, h, cfg);
    frame_lines(resized, t.0, t.1, cfg)
}

/// The lines of the `w` by `h` RGBA image `px` under a filter whose output
/// is determined: resampled to its grid, one cell per pixel.
pub open spec fn image_lines(w: u32, h: u32, px: Seq<u8>, cfg: Config) -> Seq<Seq<char>> {
    let t = grid_of(w, h, cfg);
    lines_of(w, h, resampled(px, w, h, t.0 as u32, t.1 as u32, cfg.filter), cfg)
}

/// `image_lines` joined by newlines.
pub open spec fn image_text(w: u32, h: u32, px: Seq<u8>, cfg: Config) -> Seq<char> {
    join_spec(image_lines(w, h, px, cfg))
}

/// What is known of `rs` as the resampling of the `w` by `h` image `px` to
/// its grid, whatever the filter: its size; the resampled bytes themselves
/// where the filter is exact; the source itself where no resizing is due.
pub open spec fn resize_outcome(rs: Seq<u8>, w: u32, h: u32, px: Seq<u8>, cfg: Config) -> bool {
    let t = grid_of(w, h, cfg);
    &&& rs.len() == 4 * t.0 * t.1
    &&& exact_filter(cfg.filter) ==> rs == resampled(px, w, h, t.0 as u32, t.1 as u32, cfg.filter)
    &&& t.0 == w && t.1 == h ==> rs == px
}

/// `lines` render the `w` by `h` image `px`: they are the lines of one of
/// its possible resamplings.
pub open spec fn is_image_lines(lines: Seq<Seq<char>>, w: u32, h: u32, px: Seq<u8>, cfg: Config) -> bool {
    exists|rs: Seq<u8>| resize_outcome(rs, w, h, px, cfg) && #[trigger] lines_of(w, h, rs, cfg) == lines
}

/// `text` renders the `w` by `h` image `px`: it is the joined lines of one
/// of its possible resamplings.
pub open spec fn is_image_text(text: Seq<char>, w: u32, h: u32, px: Seq<u8>, cfg: Config) -> bool {
    exists|rs: Seq<u8>|
        resize_outcome(rs, w, h, px, cfg) && join_spec(#[trigger] lines_of(w, h, rs, cfg)) == text
}

/// Under an exact filter an image has at most one rendering: the one
/// `image_lines` and `image_text` give.
pub proof fn exact_filter_determines_output(
    lines: Seq<Seq<char>>,
    text: Seq<char>,
    w: u32,
    h: u32,
    px: Seq<u8>,
    cfg: Config,
)
    requires
        exact_filter(cfg.filter),
    ensures
        is_image_lines(lines, w, h, px, cfg) ==> lines == image_lines(w, h, px, cfg),
        is_image_text(text, w, h, px, cfg) ==> text == image_text(w, h, px, cfg),
{
}

/// `c1` and `c2` differ at most in their gamma curve and contrast.
pub open spec fn differ_in_curve_only(c1: Config, c2: Config) -> bool {
    &&& c1.width == c2.width
    &&& c1.height == c2.height
    &&& c1.scale == c2.scale
    &&& c1.charset@ == c2.charset@
    &&& c1.invert == c2.invert
    &&& c1.color == c2.color
    &&& c1.brightness == c2.brightness
    &&& c1.threshold == c2.threshold
    &&& c1.aspect == c2.aspect
    &&& c1.filter == c2.filter
}

/// With a threshold set, gamma and contrast play no part: configurations
/// that differ only in them render every resampled buffer alike, and so
/// every image alike where the resampling is determined.
pub proof fn threshold_overrides_gamma_and_contrast(
    w: u32,
    h: u32,
    px: Seq<u8>,
    c1: Config,
    c2: Config,
)
    requires
        c1.threshold is Some,
        differ_in_curve_only(c1, c2),
    ensures
        lines_of(w, h, px, c1) == lines_of(w, h, px, c2),
        image_lines(w, h, px, c1) == image_lines(w, h, px, c2),
        image_text(w, h, px, c1) == image_text(w, h, px, c2),
{
    assert forall|p: (u8, u8, u8, u8)| #[trigger] cell_spec(p, c1) == cell_spec(p, c2) by {}
    let t = grid_of(w, h, c1);
    let r = resampled(px, w, h, t.0 as u32, t.1 as u32, c1.filter);
    frames_agree(r, t.0, t.1, c1, c2);
    frames_agree(px, t.0, t.1, c1, c2);
}

/// Renders a source of `width` by `height` pixels from its buffer already
/// resampled to the target grid.
pub fn render_resized(width: u32, height: u32, resized: &Vec<u8>, cfg: &Config) -> (r: Vec<
    String,
>)
    requires
        resized@.len() == 4 * grid_of(width, height, *cfg).0 * grid_of(width, height, *cfg).1,
    ensures
        string_views(r@) == lines_of(width, height, resized@, *cfg),
        r@.len() == grid_of(width, height, *cfg).1,
{
    let sw = if width == 0 { 1 } else { width };
    let sh = if height == 0 { 1 } else { height };
    let (tw, th) = target_size((sw, sh), cfg);
    render_lines(resized, tw, th, cfg)
}

fn lines_and_resampling(img: &PixelBuffer, cfg: &Config) -> (r: (Vec<String>, Ghost<Seq<u8>>))
    requires
        img.wf(),
    ensures
        resize_outcome(r.1@, img.width, img.height, img.pixels@, *cfg),
        string_views(r.0@) == lines_of(img.width, img.height, r.1@, *cfg),
{
    let sw = if img.width == 0 { 1 } else { img.width };
    let sh = if img.height == 0 { 1 } else { img.height };
    let (tw, th) = target_size((sw, sh), cfg);
    let resized = resample(img, tw, th, cfg.filter);
    let lines = render_resized(img.width, img.height, &resized, cfg);
    (lines, Ghost(resized@))
}

/// Renders an image as lines of text: the image is resampled to the target
/// grid and each pixel becomes one cell.
pub fn convert_image_to_ascii_lines(img: &PixelBuffer, cfg: &Config) -> (r: Vec<String>)
    requires
        img.wf(),
    ensures
        is_image_lines(string_views(r@), img.width, img.height, img.pixels@, *cfg),
        exact_filter(cfg.filter) ==> string_views(r@) == image_lines(
            img.width,
            img.height,
            img.pixels@,
            *cfg,
        ),
        r@.len() == grid_of(img.width, img.height, *cfg).1,
{
    let (lines, rs) = lines_and_resampling(img, cfg);
    proof {
        assert(lines_of(img.width, img.height, rs@, *cfg) == string_views(lines@));
        assert(string_views(lines@).len() == lines@.len());
    }
    lines
}

/// Renders an image as text, lines joined by newlines.
pub fn convert_image_to_ascii(img: &PixelBuffer, cfg: &Config) -> (r: String)
    requires
        img.wf(),
    ensures
        is_image_text(r@, img.width, img.height, img.pixels@, *cfg),
        exact_filter(cfg.filter) ==> r@ == image_text(img.width, img.height, img.pixels@, *cfg),
{
    let (lines, rs) = lines_and_resampling(img, cfg);
    let text = join_lines(&lines);
    proof {
        assert(join_spec(lines_of(img.width, img.height, rs@, *cfg)) == text@);
    }
    text
}

/// Decodes an image payload and renders it as text.
pub fn convert_bytes_to_ascii(bytes: &[u8], cfg: &Config) -> (r: Result<String, ConvertError>)
    ensures
        r is Err <==> decoded(bytes@) is None,
        r is Ok ==> ({
            let d = decoded(bytes@)->Some_0;
            &&& is_image_text(r->Ok_0@, d.0, d.1, d.2, *cfg)
            &&& exact_filter(cfg.filter) ==> r->Ok_0@ == image_text(d.0, d.1, d.2, *cfg)
        }),
{
    match decode_image(bytes) {
        Ok(img) => Ok(convert_image_to_ascii(&img, cfg)),
        Err(e) => Err(ConvertError::Decode(e)),
    }
}

/// Frame `i` of `texts` renders frame `i` of `fs`, for every frame.
pub open spec fn renders_frames(texts: Seq<String>, fs: Seq<(u32, u32, Seq<u8>)>, cfg: Config) -> bool {
    &&& texts.len() == fs.len()
    &&& forall|i: int|
        #![trigger texts[i]]
        0 <= i < fs.len() ==> is_image_text(texts[i]@, fs[i].0, fs[i].1, fs[i].2, cfg)
    &&& exact_filter(cfg.filter) ==> string_views(texts) == frames_text(fs, cfg)
}

/// The texts of decoded frames under an exact filter, in order.
pub open spec fn frames_text(fs: Seq<(u32, u32, Seq<u8>)>, cfg: Config) -> Seq<Seq<char>> {
    fs.map_values(|f: (u32, u32, Seq<u8>)| image_text(f.0, f.1, f.2, cfg))
}

/// The frames as (width, height, bytes).
pub open spec fn frame_views(frames: Seq<PixelBuffer>) -> Seq<(u32, u32, Seq<u8>)> {
    frames.map_values(|f: PixelBuffer| (f.width, f.height, f.pixels@))
}

/// Renders each frame, keeping their order.
pub fn render_frames(frames: &Vec<PixelBuffer>, cfg: &Config) -> (r: Vec<String>)
    requires
        forall|i: int| 0 <= i < frames@.len() ==> (#[trigger] frames@[i]).wf(),
    ensures
        renders_frames(r@, frame_views(frames@), *cfg),
{
    let ghost fs = frame_views(frames@);
    let mut out: Vec<String> = Vec::new();
    for i in 0..frames.len()
        invariant
            fs == frame_views(frames@),
            forall|j: int| 0 <= j < frames@.len() ==> (#[trigger] frames@[j]).wf(),
            out@.len() == i,
            forall|j: int|
                #![trigger out@[j]]
                0 <= j < out@.len() ==> is_image_text(out@[j]@, fs[j].0, fs[j].1, fs[j].2, *cfg),
            exact_filter(cfg.filter) ==> string_views(out@) == frames_text(fs.take(i as int), *cfg),
    {
        let text = convert_image_to_ascii(&frames[i], cfg);
        let ghost before = out@;
        out.push(text);
        proof {
            assert(string_views(out@) =~= string_views(before).push(text@));
            assert(frames_text(fs.take(i + 1), *cfg) =~= frames_text(fs.take(i as int), *cfg).push(
                image_text(fs[i as int].0, fs[i as int].1, fs[i as int].2, *cfg),
            ));
        }
    }
    proof {
        assert(fs.take(frames@.len() as int) =~= fs);
    }
    out
}

/// Decodes a GIF payload and renders each of its frames, in order.
pub fn convert_gif_bytes_to_ascii_frames(bytes: &[u8], cfg: &Config) -> (r: Result<
    Vec<String>,
    ConvertError,
>)
    ensures
        r is Err <==> decoded_frames(bytes@) is None,
        r is Ok ==> renders_frames(r->Ok_0@, decoded_frames(bytes@)->Some_0, *cfg),
{
    match decode_gif_frames(bytes) {
        Ok(frames) => {
            let texts = render_frames(&frames, cfg);
            proof {
                assert(frame_views(frames@) =~= decoded_frames(bytes@)->Some_0);
            }
            Ok(texts)
        },
        Err(e) => Err(ConvertError::Decode(e)),
    }
}

/// Renders an animated payload frame by frame; a payload that does not
/// decode as an animation is rendered as a single still image instead.
pub fn convert_bytes_to_ascii_frames(bytes: &[u8], cfg: &Config) -> (r: Result<
    Vec<String>,
    ConvertError,
>)
    ensures
        decoded_frames(bytes@) is Some ==> r is Ok && renders_frames(
            r->Ok_0@,
            decoded_frames(bytes@)->Some_0,
            *cfg,
        ),
        decoded_frames(bytes@) is None ==> (r is Ok <==> decoded(bytes@) is Some),
        decoded_frames(bytes@) is None && r is Ok ==> ({
            let d = decoded(bytes@)->Some_0;
            &&& r->Ok_0@.len() == 1
            &&& is_image_text(r->Ok_0@[0]@, d.0, d.1, d.2, *cfg)
            &&& exact_filter(cfg.filter) ==> r->Ok_0@[0]@ == image_text(d.0, d.1, d.2, *cfg)
        }),
{
    match convert_gif_bytes_to_ascii_frames(bytes, cfg) {
        Ok(frames) => Ok(frames),
        Err(_) => match convert_bytes_to_ascii(bytes, cfg) {
            Ok(text) => {
                let frames = vec![text];
                proof {
                    assert(frames@[0] == text);
                }
                Ok(frames)
            },
            Err(e) => Err(e),
        },
    }
}

} // verus!
