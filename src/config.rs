use vstd::prelude::*;

verus! {

/// The built-in charset, from light to dark.
pub const DEFAULT_CHARSET: &'static str = " .:-=+*#%@";

/// Full luminance (white). Luminance values are integers in `0..=LUM_ONE`.
pub const LUM_ONE: u32 = 2_550_000;

/// Half of full luminance, the midpoint of contrast adjustment.
pub const LUM_HALF: u32 = 1_275_000;

/// The number of entries of a gamma curve.
pub const GAMMA_CURVE_LEN: usize = 256;

/// The luminance distance between two samples of a gamma curve.
pub const GAMMA_STEP: u32 = 10_000;

/// The resampling filter used to bring the image to the target grid.
#[derive(Clone, Copy, Debug, PartialEq, Eq, Structural)]
pub enum Filter {
    Nearest,
    Triangle,
    CatmullRom,
    Gaussian,
    Lanczos3,
}

/// The settings of one conversion.
#[derive(Clone, Debug)]
pub struct Config {
    /// Output width in character columns.
    pub width: Option<u32>,
    /// Output height in character rows, before aspect correction.
    pub height: Option<u32>,
    /// Multiplier applied to both dimensions, in thousandths.
    pub scale: Option<u32>,
    /// Characters from light to dark; empty means `DEFAULT_CHARSET`.
    pub charset: String,
    /// Swap light and dark.
    pub invert: bool,
    /// Wrap each character in a 24-bit color escape sequence.
    pub color: bool,
    /// Offset added to luminance, in thousandths of full luminance.
    pub brightness: i32,
    /// Gamma transfer curve: `GAMMA_CURVE_LEN` luminance values, entry `i`
    /// giving the output at luminance `i * GAMMA_STEP`, linear in between.
    /// Any other length (in particular empty) means gamma 1.
    pub gamma_curve: Vec<u32>,
    /// Contrast factor around mid-gray, in thousandths (1000 leaves it).
    pub contrast: i32,
    /// When set, luminance becomes black or white against this 8-bit level.
    pub threshold: Option<u8>,
    /// Height-to-width ratio of a character cell, in thousandths; 0 means 2000.
    pub aspect: u32,
    /// Resampling filter.
    pub filter: Filter,
}

pub open spec fn default_charset() -> Seq<char> {
    seq![' ', '.', ':', '-', '=', '+', '*', '#', '%', '@']
}

impl Config {
    /// True of the default settings.
    pub open spec fn is_default(&self) -> bool {
        &&& self.width is None
        &&& self.height is None
        &&& self.scale is None
        &&& self.charset@ == default_charset()
        &&& !self.invert
        &&& !self.color
        &&& self.brightness == 0
        &&& self.gamma_curve@.len() == 0
        &&& self.contrast == 1000
        &&& self.threshold is None
        &&& self.aspect == 2000
        &&& self.filter == Filter::Triangle
    }
}

impl Default for Config {
    fn default() -> (r: Config)
        ensures
            r.is_default(),
    {
        let charset = String::from_str(DEFAULT_CHARSET);
        proof {
            reveal_strlit(" .:-=+*#%@");
            assert(charset@ =~= default_charset());
        }
        Config {
            width: None,
            height: None,
            scale: None,
            charset,
            invert: false,
            color: false,
            brightness: 0,
            gamma_curve: Vec::new(),
            contrast: 1000,
            threshold: None,
            aspect: 2000,
            filter: Filter::Triangle,
        }
    }
}

} // verus!
