use vstd::prelude::*;

verus! {

/// A decoded image: `width` by `height` pixels of RGBA bytes, row by row.
#[derive(Clone, Debug)]
pub struct PixelBuffer {
    pub width: u32,
    pub height: u32,
    pub pixels: Vec<u8>,
}

impl PixelBuffer {
    /// Four bytes for each pixel.
    pub open spec fn wf(&self) -> bool {
        self.pixels@.len() == 4 * self.width * self.height
    }

    /// A buffer of the given size, if `pixels` holds four bytes per pixel.
    pub fn new(width: u32, height: u32, pixels: Vec<u8>) -> (r: Option<PixelBuffer>)
        ensures
            r is Some <==> pixels@.len() == 4 * width * height,
            r is Some ==> (r->Some_0.width == width && r->Some_0.height == height
                && r->Some_0.pixels@ == pixels@),
    {
        let n = pixels.len() as u128;
        assert(4 * (width as u128) * (height as u128) < 0x1_0000_0000_0000_0000_0000) by (nonlinear_arith)
            requires width < 0x1_0000_0000, height < 0x1_0000_0000;
        if n == 4 * (width as u128) * (height as u128) {
            Some(PixelBuffer { width, height, pixels })
        } else {
            None
        }
    }
}

} // verus!
