//! The in-memory image type and the CPU palettization strategy: every
//! pixel of the source image is replaced by its nearest palette color,
//! with the output grid exactly the size and layout of the input grid.

use vstd::prelude::*;
use crate::color::{average_color_spec, get_average_color_from_pixels, Color};
use crate::closest::{
    closest_biased_spec, closest_color_spec, get_closest_color, get_closest_color_biased,
};

verus! {

/// A width by height grid of colors, row-major: the pixel at column `x`
/// and row `y` sits at index `y * width + x`.
pub struct Image {
    pub width: u32,
    pub height: u32,
    pub pixels: Vec<Color>,
}

impl Image {
    /// A well-formed image holds exactly width * height pixels; the pixel
    /// count stays within 32 bits, the machine limit the pixel arithmetic
    /// is sized for.
    pub open spec fn wf(self) -> bool {
        self.pixels@.len() == self.width * self.height && self.pixels@.len() <= 0xFFFF_FFFF
    }

    /// The pixel at column `x` and row `y`.
    pub open spec fn pixel_spec(self, x: int, y: int) -> Color {
        self.pixels@[y * self.width + x]
    }

    /// Builds an image from its dimensions and row-major pixels; `None`
    /// when the pixel count does not match the dimensions or overflows the
    /// machine limit.
    pub fn new(width: u32, height: u32, pixels: Vec<Color>) -> (r: Option<Image>)
        ensures
            match r {
                Some(img) => img.width == width && img.height == height && img.pixels@ == pixels@
                    && img.wf(),
                None => pixels@.len() != width * height || width * height > 0xFFFF_FFFF,
            },
    {
        proof {
            assert((width as int) * (height as int) < 0x10000000000000000) by (nonlinear_arith)
                requires
                    width <= 0xFFFF_FFFFu32 && height <= 0xFFFF_FFFFu32,
            ;
        }
        let expected = (width as u64) * (height as u64);
        if (pixels.len() as u64) != expected || expected > 0xFFFF_FFFF {
            return None;
        }
        Some(Image { width, height, pixels })
    }

    /// Reads the pixel at column `x` and row `y`.
    pub fn get_pixel(&self, x: u32, y: u32) -> (c: Color)
        requires
            self.wf(),
            x < self.width,
            y < self.height,
        ensures
            c == self.pixel_spec(x as int, y as int),
    {
        proof {
            assert((y as int) * (self.width as int) + x < (self.width as int) * (
            self.height as int)) by (nonlinear_arith)
                requires
                    y < self.height && x < self.width,
            ;
        }
        self.pixels[(y as usize) * (self.width as usize) + (x as usize)]
    }
}

/// A receiver of progress reports from a palettization run. Progress is
/// advisory: nothing about the result depends on what a sink does.
pub trait ProgressSink {
    /// Called with the percentage of pixels processed so far, always
    /// between 0 and 100.
    fn report(&mut self, percent: u32)
        requires
            percent <= 100,
    ;
}

/// A sink that ignores progress reports.
pub struct NoProgress;

impl ProgressSink for NoProgress {
    fn report(&mut self, _percent: u32) {
    }
}

/// A sink that records every reported percentage.
pub struct ProgressLog {
    pub reports: Vec<u32>,
}

impl ProgressSink for ProgressLog {
    fn report(&mut self, percent: u32) {
        self.reports.push(percent);
    }
}

impl ProgressLog {
    /// An empty log.
    pub fn new() -> (r: ProgressLog)
        ensures
            r.reports@.len() == 0,
    {
        ProgressLog { reports: Vec::new() }
    }
}

/// How often the palettization loop reports progress, in pixels.
pub const PROGRESS_INTERVAL: usize = 20000;

/// Replaces every pixel of the image by its closest palette color. The
/// output has the input's width and height, and the output pixel at any
/// position is exactly the nearest palette color of the input pixel at
/// that same position; an empty palette leaves every pixel unchanged.
pub fn palletize_evenly<S: ProgressSink>(
    source_image: &Image,
    pallet: &Vec<Color>,
    progress: &mut S,
) -> (r: Image)
    requires
        source_image.wf(),
    ensures
        r.wf(),
        r.width == source_image.width,
        r.height == source_image.height,
        r.pixels@.len() == source_image.pixels@.len(),
        forall|i: int|
            0 <= i < r.pixels@.len() ==> r.pixels@[i] == closest_color_spec(
                pallet@,
                source_image.pixels@[i],
            ),
{
    let total = source_image.pixels.len();
    let mut out: Vec<Color> = Vec::with_capacity(total);
    let mut i: usize = 0;
    while i < total
        invariant
            total == source_image.pixels@.len(),
            total <= 0xFFFF_FFFF,
            0 <= i <= total,
            out@.len() == i,
            forall|j: int|
                0 <= j < i ==> out@[j] == closest_color_spec(
                    pallet@,
                    source_image.pixels@[j],
                ),
        decreases total - i,
    {
        if i % PROGRESS_INTERVAL == 0 {
            let percent = ((i as u64) * 100) / (total as u64);
            proof {
                vstd::arithmetic::div_mod::lemma_multiply_divide_lt(
                    (i as int) * 100,
                    total as int,
                    100,
                );
            }
            progress.report(percent as u32);
        }
        let c = get_closest_color(pallet, &source_image.pixels[i]);
        out.push(c);
        i = i + 1;
    }
    Image { width: source_image.width, height: source_image.height, pixels: out }
}

/// Replaces every pixel by the closest color out of two palettes, the
/// biased palette preferred under the standard bias. The grid layout is
/// preserved exactly as in the even variant.
pub fn palletize_biased<S: ProgressSink>(
    source_image: &Image,
    biased_pallet: &Vec<Color>,
    standard_pallet: &Vec<Color>,
    progress: &mut S,
) -> (r: Image)
    requires
        source_image.wf(),
    ensures
        r.wf(),
        r.width == source_image.width,
        r.height == source_image.height,
        r.pixels@.len() == source_image.pixels@.len(),
        forall|i: int|
            0 <= i < r.pixels@.len() ==> r.pixels@[i] == closest_biased_spec(
                biased_pallet@,
                standard_pallet@,
                source_image.pixels@[i],
            ),
{
    let total = source_image.pixels.len();
    let mut out: Vec<Color> = Vec::with_capacity(total);
    let mut i: usize = 0;
    while i < total
        invariant
            total == source_image.pixels@.len(),
            total <= 0xFFFF_FFFF,
            0 <= i <= total,
            out@.len() == i,
            forall|j: int|
                0 <= j < i ==> out@[j] == closest_biased_spec(
                    biased_pallet@,
                    standard_pallet@,
                    source_image.pixels@[j],
                ),
        decreases total - i,
    {
        if i % PROGRESS_INTERVAL == 0 {
            let percent = ((i as u64) * 100) / (total as u64);
            proof {
                vstd::arithmetic::div_mod::lemma_multiply_divide_lt(
                    (i as int) * 100,
                    total as int,
                    100,
                );
            }
            progress.report(percent as u32);
        }
        let c = get_closest_color_biased(biased_pallet, standard_pallet, &source_image.pixels[i]);
        out.push(c);
        i = i + 1;
    }
    Image { width: source_image.width, height: source_image.height, pixels: out }
}

/// Replaces every pixel by its closest palette color, reporting no
/// progress.
pub fn palletize(source_image: &Image, pallet: &Vec<Color>) -> (r: Image)
    requires
        source_image.wf(),
    ensures
        r.wf(),
        r.width == source_image.width,
        r.height == source_image.height,
        r.pixels@.len() == source_image.pixels@.len(),
        forall|i: int|
            0 <= i < r.pixels@.len() ==> r.pixels@[i] == closest_color_spec(
                pallet@,
                source_image.pixels@[i],
            ),
{
    let mut sink = NoProgress;
    palletize_evenly(source_image, pallet, &mut sink)
}

/// Palettization is deterministic: any two outputs that satisfy the
/// per-pixel nearest-color description of the same image and palette are
/// bit-identical.
pub proof fn lemma_palletize_deterministic(
    image: Image,
    pallet: Seq<Color>,
    out1: Seq<Color>,
    out2: Seq<Color>,
)
    requires
        out1.len() == image.pixels@.len(),
        out2.len() == image.pixels@.len(),
        forall|i: int|
            0 <= i < out1.len() ==> out1[i] == closest_color_spec(pallet, image.pixels@[i]),
        forall|i: int|
            0 <= i < out2.len() ==> out2[i] == closest_color_spec(pallet, image.pixels@[i]),
    ensures
        out1 == out2,
{
    assert(out1 =~= out2);
}

/// No slippage: an output that satisfies the per-index nearest-color
/// description holds, at every column and row, exactly the nearest palette
/// color of the input pixel at that same column and row.
pub proof fn lemma_palletize_preserves_positions(source: Image, out: Image, pallet: Seq<Color>)
    requires
        source.wf(),
        out.width == source.width,
        out.height == source.height,
        out.pixels@.len() == source.pixels@.len(),
        forall|i: int|
            0 <= i < out.pixels@.len() ==> out.pixels@[i] == closest_color_spec(
                pallet,
                source.pixels@[i],
            ),
    ensures
        forall|x: int, y: int|
            0 <= x < source.width && 0 <= y < source.height ==> out.pixel_spec(x, y)
                == closest_color_spec(pallet, source.pixel_spec(x, y)),
{
    assert forall|x: int, y: int|
        0 <= x < source.width && 0 <= y < source.height implies out.pixel_spec(x, y)
        == closest_color_spec(pallet, source.pixel_spec(x, y)) by {
        assert(y * source.width + x < source.width * source.height) by (nonlinear_arith)
            requires
                0 <= x < source.width && 0 <= y < source.height,
        ;
        assert(y * source.width + x >= 0) by (nonlinear_arith)
            requires
                0 <= x && 0 <= y && source.width >= 1,
        ;
    }
}

/// Computes the average color of an image's pixels.
pub fn get_average_color_from_image(image: &Image) -> (c: Color)
    requires
        image.wf(),
        image.pixels@.len() > 0,
    ensures
        c == average_color_spec(image.pixels@),
{
    get_average_color_from_pixels(&image.pixels)
}

} // verus!
