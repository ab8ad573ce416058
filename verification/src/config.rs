//! Configuration for a classification run: the proximity color mode, the
//! threshold a channel must reach, and the decoded pixel grid under analysis.

use vstd::prelude::*;

verus! {

/// Which color signals proximity in the depth-annotated image.
#[derive(Clone, Copy, PartialEq, Eq, Structural, Debug)]
pub enum ModelProximityColor {
    RED,
    WHITE,
}

/// One pixel of the decoded image: four 8-bit channels.
#[derive(Clone, Copy, PartialEq, Eq, Structural, Debug)]
pub struct Pixel {
    pub r: u8,
    pub g: u8,
    pub b: u8,
    pub a: u8,
}

/// Whether a pixel counts as "near" under the given color mode and threshold:
/// in RED mode its red channel reaches the threshold, in WHITE mode all three
/// color channels do.
pub open spec fn pixel_near(p: Pixel, color: ModelProximityColor, threshold: u8) -> bool {
    match color {
        ModelProximityColor::RED => p.r >= threshold,
        ModelProximityColor::WHITE => p.r >= threshold && p.g >= threshold && p.b >= threshold,
    }
}

/// The proximity predicate: decides whether a pixel is of the proximity color.
pub fn check_threshold(proximity_color: &ModelProximityColor, threshold: u8, rgba: &Pixel) -> (r:
    bool)
    ensures
        r == pixel_near(*rgba, *proximity_color, threshold),
{
    match proximity_color {
        ModelProximityColor::RED => rgba.r >= threshold,
        ModelProximityColor::WHITE => rgba.r >= threshold && rgba.g >= threshold && rgba.b
            >= threshold,
    }
}

/// A decoded image as the analysis reads it: a rectangular grid of pixels in
/// row-major order, so the pixel at column `x` and row `y` sits at index
/// `y * width + x`.
pub struct PixelGrid {
    pub width: u32,
    pub height: u32,
    pub pixels: Vec<Pixel>,
}

impl PixelGrid {
    /// A grid is well formed when it holds exactly one pixel per cell.
    pub open spec fn wf(self) -> bool {
        self.pixels@.len() == self.width * self.height
    }

    /// Builds a grid from its dimensions and a row-major pixel vector;
    /// refuses a vector whose length does not match the dimensions.
    pub fn new(width: u32, height: u32, pixels: Vec<Pixel>) -> (r: Option<PixelGrid>)
        ensures
            r is Some <==> pixels@.len() == width * height,
            r is Some ==> r->Some_0 == (PixelGrid { width, height, pixels }),
            r is Some ==> r->Some_0.wf(),
    {
        proof {
            assert((width as u64) * (height as u64) <= u64::MAX) by (nonlinear_arith)
                requires
                    width < 0x1_0000_0000u64,
                    height < 0x1_0000_0000u64,
            ;
        }
        if (pixels.len() as u64) == (width as u64) * (height as u64) {
            Some(PixelGrid { width, height, pixels })
        } else {
            None
        }
    }
}

/// Everything a single classification consumes: the color mode, the
/// threshold, and the image to scan, if one has been supplied.
pub struct ImageConfig {
    /// Specifies which color to use as an indicator for proximity.
    pub proximity_color: ModelProximityColor,
    /// Specifies the value a pixel must have in order to be considered to be
    /// of the proximity color.
    pub threshold: u8,
    /// The decoded image awaiting analysis, taken by the scan.
    pub img: Option<PixelGrid>,
}

} // verus!
