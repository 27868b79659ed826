//! Accent-color detection: sufficiently colorful pixels are grown into
//! regions of similar color, region lists are merged under the same
//! similarity threshold, and the highest-scoring region's average color is
//! the image's accent color. An image with no colorful pixel falls back to
//! its average color.

use vstd::prelude::*;
use crate::color::{
    average_color_spec, distance_squared_spec, get_average_color_from_pixels,
    get_distance_squared, lemma_distance_squared_bound, Color,
};
use crate::raster::{get_average_color_from_image, Image};

verus! {

/// The squared scaled distance under which two colors count as the same
/// color region: a distance of 8 on the unscaled metric.
pub const REGION_DIFFERENTIATION_SQUARED: u64 = 64000000;

/// The squared scaled distance a pixel must keep from its own grayscale
/// projection to count as an accent candidate: a distance of 16 on the
/// unscaled metric, the region threshold times the accent multiplier of 2.
pub const ACCENT_THRESHOLD_SQUARED: u64 = 256000000;

/// The perceived brightness of a color under the luma weights.
pub open spec fn grey_level_spec(c: Color) -> int {
    (299 * c.r + 587 * c.g + 114 * c.b) / 1000
}

/// The grayscale projection of a color: its perceived brightness on every
/// channel.
pub open spec fn grey_of_spec(c: Color) -> Color {
    Color {
        r: grey_level_spec(c) as u8,
        g: grey_level_spec(c) as u8,
        b: grey_level_spec(c) as u8,
    }
}

/// Whether a pixel is colorful enough to be an accent candidate: its
/// distance from its own grayscale projection exceeds the accent
/// threshold.
pub open spec fn is_accent_color_spec(c: Color) -> bool {
    distance_squared_spec(c, grey_of_spec(c)) > ACCENT_THRESHOLD_SQUARED
}

/// Whether two colors are far enough apart to belong to separate regions.
pub open spec fn is_different_region_spec(a: Color, b: Color) -> bool {
    distance_squared_spec(a, b) > REGION_DIFFERENTIATION_SQUARED
}

proof fn lemma_grey_level_in_range(c: Color)
    ensures
        0 <= grey_level_spec(c) <= 255,
{
    let num = 299 * c.r + 587 * c.g + 114 * c.b;
    assert(num <= 255000);
    vstd::arithmetic::div_mod::lemma_multiply_divide_lt(num, 1000, 256);
    vstd::arithmetic::div_mod::lemma_div_pos_is_pos(num, 1000);
}

/// Computes the grayscale projection of a color.
pub fn grey_of(color: &Color) -> (g: Color)
    ensures
        g == grey_of_spec(*color),
{
    proof {
        lemma_grey_level_in_range(*color);
    }
    let level = ((299 * (color.r as u32) + 587 * (color.g as u32) + 114 * (color.b as u32))
        / 1000) as u8;
    Color { r: level, g: level, b: level }
}

/// Decides whether a pixel is an accent candidate.
pub fn is_accent_color(color: &Color) -> (r: bool)
    ensures
        r == is_accent_color_spec(*color),
{
    let grey = grey_of(color);
    get_distance_squared(color, &grey) > ACCENT_THRESHOLD_SQUARED
}

/// Decides whether two colors belong to separate color regions.
pub fn is_different_color_region(color_1: &Color, color_2: &Color) -> (r: bool)
    ensures
        r == is_different_region_spec(*color_1, *color_2),
{
    get_distance_squared(color_1, color_2) > REGION_DIFFERENTIATION_SQUARED
}

/// A growing cluster of similar colors, carrying its running average.
pub struct Region {
    /// The colors gathered into the region so far.
    pub colors: Vec<Color>,
    /// The average color of the region; black while the region is empty.
    pub average_color: Color,
}

impl Region {
    /// The cached average is the true average of the gathered colors.
    pub open spec fn wf(self) -> bool {
        if self.colors@.len() == 0 {
            self.average_color == (Color { r: 0, g: 0, b: 0 })
        } else {
            self.average_color == average_color_spec(self.colors@)
        }
    }

    /// An empty region.
    pub fn new() -> (r: Region)
        ensures
            r.colors@.len() == 0,
            r.wf(),
    {
        Region { colors: Vec::new(), average_color: Color { r: 0, g: 0, b: 0 } }
    }

    /// Adds one color to the region and refreshes the average.
    pub fn add_color(&mut self, color: Color)
        requires
            old(self).wf(),
        ensures
            final(self).colors@ == old(self).colors@.push(color),
            final(self).wf(),
    {
        self.colors.push(color);
        self.update_average_color();
    }

    /// Adds a list of colors to the region and refreshes the average.
    pub fn add_colors(&mut self, colors: &Vec<Color>)
        requires
            old(self).wf(),
            old(self).colors@.len() + colors@.len() > 0,
        ensures
            final(self).colors@ == old(self).colors@ + colors@,
            final(self).wf(),
    {
        let ghost orig = self.colors@;
        let mut i: usize = 0;
        while i < colors.len()
            invariant
                0 <= i <= colors@.len(),
                self.colors@ == orig + colors@.take(i as int),
                self.average_color == old(self).average_color,
            decreases colors@.len() - i,
        {
            self.colors.push(colors[i]);
            proof {
                assert(orig + colors@.take(i + 1) =~= (orig + colors@.take(i as int)).push(
                    colors@[i as int],
                ));
            }
            i = i + 1;
        }
        proof {
            assert(orig + colors@.take(colors@.len() as int) =~= orig + colors@);
        }
        self.update_average_color();
    }

    fn update_average_color(&mut self)
        requires
            old(self).colors@.len() > 0,
        ensures
            final(self).colors@ == old(self).colors@,
            final(self).average_color == average_color_spec(old(self).colors@),
            final(self).wf(),
    {
        self.average_color = get_average_color_from_pixels(&self.colors);
    }
}

/// The colors of each region in a region list.
pub open spec fn regions_model(rs: Seq<Region>) -> Seq<Seq<Color>> {
    rs.map_values(|r: Region| r.colors@)
}

/// Every region of the list is well formed and nonempty.
pub open spec fn regions_wf(rs: Seq<Region>) -> bool {
    forall|i: int|
        0 <= i < rs.len() ==> (#[trigger] rs[i]).wf() && rs[i].colors@.len() > 0
}

/// The index of the first region whose average color is within the region
/// threshold of the given color, starting the search at `i`; -1 when none
/// matches.
pub open spec fn find_region_spec(regions: Seq<Seq<Color>>, c: Color, i: int) -> int
    decreases regions.len() - i,
{
    if i < 0 || i >= regions.len() {
        -1
    } else if !is_different_region_spec(average_color_spec(regions[i]), c) {
        i
    } else {
        find_region_spec(regions, c, i + 1)
    }
}

proof fn lemma_find_region_step(regions: Seq<Seq<Color>>, c: Color, i: int)
    requires
        0 <= i < regions.len(),
        is_different_region_spec(average_color_spec(regions[i]), c),
    ensures
        find_region_spec(regions, c, i) == find_region_spec(regions, c, i + 1),
{
}

/// Finds the first region the color fits into.
fn find_matching_region(regions: &Vec<Region>, color: &Color) -> (r: Option<usize>)
    requires
        regions_wf(regions@),
    ensures
        match r {
            Some(i) => i < regions@.len() && find_region_spec(
                regions_model(regions@),
                *color,
                0,
            ) == i as int,
            None => find_region_spec(regions_model(regions@), *color, 0) == -1,
        },
{
    let ghost model = regions_model(regions@);
    let mut i: usize = 0;
    while i < regions.len()
        invariant
            0 <= i <= regions@.len(),
            regions_wf(regions@),
            model == regions_model(regions@),
            find_region_spec(model, *color, 0) == find_region_spec(model, *color, i as int),
        decreases regions@.len() - i,
    {
        proof {
            assert(model[i as int] == regions@[i as int].colors@);
        }
        if !is_different_color_region(&regions[i].average_color, color) {
            return Some(i);
        }
        proof {
            lemma_find_region_step(model, *color, i as int);
        }
        i = i + 1;
    }
    None
}

/// One pixel folded into a region list: a non-candidate pixel changes
/// nothing; a candidate joins the first region it fits, or starts a new
/// region of its own.
pub open spec fn add_pixel_spec(regions: Seq<Seq<Color>>, c: Color) -> Seq<Seq<Color>> {
    if !is_accent_color_spec(c) {
        regions
    } else {
        let i = find_region_spec(regions, c, 0);
        if i == -1 {
            regions.push(seq![c])
        } else {
            regions.update(i, regions[i].push(c))
        }
    }
}

/// The region list grown from a list of pixels, scanned in order.
pub open spec fn collect_regions_spec(pixels: Seq<Color>) -> Seq<Seq<Color>>
    decreases pixels.len(),
{
    if pixels.len() == 0 {
        Seq::empty()
    } else {
        add_pixel_spec(collect_regions_spec(pixels.drop_last()), pixels.last())
    }
}

/// Grows regions from the accent-candidate pixels of a pixel list, in scan
/// order: each candidate joins the first existing region whose average it
/// is close to, or opens a new region.
pub fn collect_regions(pixels: &Vec<Color>) -> (r: Vec<Region>)
    ensures
        regions_model(r@) == collect_regions_spec(pixels@),
        regions_wf(r@),
{
    let mut regions: Vec<Region> = Vec::new();
    let mut j: usize = 0;
    while j < pixels.len()
        invariant
            0 <= j <= pixels@.len(),
            regions_model(regions@) == collect_regions_spec(pixels@.take(j as int)),
            regions_wf(regions@),
        decreases pixels@.len() - j,
    {
        let c = pixels[j];
        let ghost before = regions@;
        if is_accent_color(&c) {
            match find_matching_region(&regions, &c) {
                Some(i) => {
                    let mut reg = regions.remove(i);
                    proof {
                        assert(before[i as int].wf());
                    }
                    reg.add_color(c);
                    regions.insert(i, reg);
                    proof {
                        assert(regions@ =~= before.update(i as int, regions@[i as int]));
                        assert(regions_model(regions@) =~= regions_model(before).update(
                            i as int,
                            regions_model(before)[i as int].push(c),
                        ));
                    }
                },
                None => {
                    let mut reg = Region::new();
                    reg.add_color(c);
                    regions.push(reg);
                    proof {
                        assert(regions@[before.len() as int].colors@ =~= seq![c]);
                        assert(regions_model(regions@) =~= regions_model(before).push(seq![c]));
                    }
                },
            }
        }
        proof {
            assert(pixels@.take(j + 1).drop_last() =~= pixels@.take(j as int));
            assert(pixels@.take(j + 1).last() == c);
            assert(regions_model(regions@) =~= add_pixel_spec(
                collect_regions_spec(pixels@.take(j as int)),
                c,
            ));
        }
        j = j + 1;
    }
    proof {
        assert(pixels@.take(pixels@.len() as int) =~= pixels@);
    }
    regions
}

/// The total number of colors gathered over a region list.
pub open spec fn regions_total_spec(regions: Seq<Seq<Color>>) -> int
    decreases regions.len(),
{
    if regions.len() == 0 {
        0
    } else {
        regions_total_spec(regions.drop_last()) + regions.last().len()
    }
}

proof fn lemma_total_nonneg(regions: Seq<Seq<Color>>)
    ensures
        regions_total_spec(regions) >= 0,
    decreases regions.len(),
{
    if regions.len() > 0 {
        lemma_total_nonneg(regions.drop_last());
    }
}

proof fn lemma_total_update(regions: Seq<Seq<Color>>, i: int, v: Seq<Color>)
    requires
        0 <= i < regions.len(),
    ensures
        regions_total_spec(regions.update(i, v)) == regions_total_spec(regions) - regions[
            i].len() + v.len(),
    decreases regions.len(),
{
    if i == regions.len() - 1 {
        assert(regions.update(i, v).drop_last() =~= regions.drop_last());
        assert(regions.update(i, v).last() == v);
    } else {
        assert(regions.update(i, v).drop_last() =~= regions.drop_last().update(i, v));
        assert(regions.update(i, v).last() == regions.last());
        lemma_total_update(regions.drop_last(), i, v);
    }
}

proof fn lemma_total_push(regions: Seq<Seq<Color>>, v: Seq<Color>)
    ensures
        regions_total_spec(regions.push(v)) == regions_total_spec(regions) + v.len(),
{
    assert(regions.push(v).drop_last() =~= regions);
    assert(regions.push(v).last() == v);
}

/// Each region holds at most as many colors as the whole list together.
proof fn lemma_region_le_total(regions: Seq<Seq<Color>>, i: int)
    requires
        0 <= i < regions.len(),
    ensures
        regions[i].len() <= regions_total_spec(regions),
    decreases regions.len(),
{
    if i == regions.len() - 1 {
        lemma_total_nonneg(regions.drop_last());
    } else {
        lemma_region_le_total(regions.drop_last(), i);
        assert(regions.drop_last()[i] == regions[i]);
    }
}

proof fn lemma_add_pixel_total(regions: Seq<Seq<Color>>, c: Color)
    ensures
        regions_total_spec(add_pixel_spec(regions, c)) <= regions_total_spec(regions) + 1,
        regions_total_spec(add_pixel_spec(regions, c)) >= regions_total_spec(regions),
{
    lemma_total_nonneg(regions);
    if is_accent_color_spec(c) {
        let i = find_region_spec(regions, c, 0);
        if i == -1 {
            lemma_total_push(regions, seq![c]);
        } else {
            lemma_find_region_in_range(regions, c, 0);
            lemma_total_update(regions, i, regions[i].push(c));
        }
    }
}

proof fn lemma_find_region_in_range(regions: Seq<Seq<Color>>, c: Color, i: int)
    requires
        0 <= i,
    ensures
        find_region_spec(regions, c, i) == -1 || i <= find_region_spec(regions, c, i)
            < regions.len(),
    decreases regions.len() - i,
{
    if i < regions.len() {
        if is_different_region_spec(average_color_spec(regions[i]), c) {
            lemma_find_region_in_range(regions, c, i + 1);
        }
    }
}

/// A region list grown from a pixel list gathers no more colors than there
/// are pixels.
pub proof fn lemma_collect_regions_total(pixels: Seq<Color>)
    ensures
        regions_total_spec(collect_regions_spec(pixels)) <= pixels.len(),
    decreases pixels.len(),
{
    if pixels.len() > 0 {
        lemma_collect_regions_total(pixels.drop_last());
        lemma_add_pixel_total(collect_regions_spec(pixels.drop_last()), pixels.last());
    }
}

/// One region folded into a merged list: it joins the first merged region
/// whose average its own average is close to, or is appended whole.
pub open spec fn merge_region_spec(merged: Seq<Seq<Color>>, rc: Seq<Color>) -> Seq<Seq<Color>> {
    let i = find_region_spec(merged, average_color_spec(rc), 0);
    if i == -1 {
        merged.push(rc)
    } else {
        merged.update(i, merged[i] + rc)
    }
}

/// A whole region list merged, region by region in order.
pub open spec fn merge_regions_spec(regions: Seq<Seq<Color>>) -> Seq<Seq<Color>>
    decreases regions.len(),
{
    if regions.len() == 0 {
        Seq::empty()
    } else {
        merge_region_spec(merge_regions_spec(regions.drop_last()), regions.last())
    }
}

proof fn lemma_merge_region_total(merged: Seq<Seq<Color>>, rc: Seq<Color>)
    ensures
        regions_total_spec(merge_region_spec(merged, rc)) == regions_total_spec(merged)
            + rc.len(),
{
    let i = find_region_spec(merged, average_color_spec(rc), 0);
    if i == -1 {
        lemma_total_push(merged, rc);
    } else {
        lemma_find_region_in_range(merged, average_color_spec(rc), 0);
        lemma_total_update(merged, i, merged[i] + rc);
    }
}

/// Merging keeps the total number of gathered colors exactly.
pub proof fn lemma_merge_regions_total(regions: Seq<Seq<Color>>)
    ensures
        regions_total_spec(merge_regions_spec(regions)) == regions_total_spec(regions),
    decreases regions.len(),
{
    if regions.len() > 0 {
        lemma_merge_regions_total(regions.drop_last());
        lemma_merge_region_total(merge_regions_spec(regions.drop_last()), regions.last());
    }
}

/// Copies a list of colors.
fn clone_colors(v: &Vec<Color>) -> (r: Vec<Color>)
    ensures
        r@ == v@,
{
    let mut out: Vec<Color> = Vec::with_capacity(v.len());
    let mut i: usize = 0;
    while i < v.len()
        invariant
            0 <= i <= v@.len(),
            out@ == v@.take(i as int),
        decreases v@.len() - i,
    {
        out.push(v[i]);
        proof {
            assert(v@.take(i + 1) =~= v@.take(i as int).push(v@[i as int]));
        }
        i = i + 1;
    }
    proof {
        assert(v@.take(v@.len() as int) =~= v@);
    }
    out
}

/// Merges a region list serially: each region joins the first already
/// merged region whose average color it is close to, or stays a region of
/// its own. This collapses regions that drifted toward each other while
/// they grew apart.
pub fn merge_regions(regions: &Vec<Region>) -> (r: Vec<Region>)
    requires
        regions_wf(regions@),
    ensures
        regions_model(r@) == merge_regions_spec(regions_model(regions@)),
        regions_wf(r@),
{
    let ghost model = regions_model(regions@);
    let mut merged: Vec<Region> = Vec::new();
    let mut j: usize = 0;
    while j < regions.len()
        invariant
            0 <= j <= regions@.len(),
            model == regions_model(regions@),
            regions_wf(regions@),
            regions_model(merged@) == merge_regions_spec(model.take(j as int)),
            regions_wf(merged@),
        decreases regions@.len() - j,
    {
        let ghost before = merged@;
        proof {
            assert(model[j as int] == regions@[j as int].colors@);
            assert(regions@[j as int].wf());
        }
        let avg = regions[j].average_color;
        match find_matching_region(&merged, &avg) {
            Some(i) => {
                let mut reg = merged.remove(i);
                proof {
                    assert(before[i as int].wf());
                }
                reg.add_colors(&regions[j].colors);
                merged.insert(i, reg);
                proof {
                    assert(merged@ =~= before.update(i as int, merged@[i as int]));
                    assert(regions_model(merged@) =~= regions_model(before).update(
                        i as int,
                        regions_model(before)[i as int] + model[j as int],
                    ));
                }
            },
            None => {
                let colors = clone_colors(&regions[j].colors);
                let new_region = Region { colors, average_color: avg };
                proof {
                    assert(new_region.wf());
                }
                merged.push(new_region);
                proof {
                    assert(regions_model(merged@) =~= regions_model(before).push(
                        model[j as int],
                    ));
                }
            },
        }
        proof {
            assert(model.take(j + 1).drop_last() =~= model.take(j as int));
            assert(model.take(j + 1).last() == model[j as int]);
            assert(regions_model(merged@) =~= merge_region_spec(
                merge_regions_spec(model.take(j as int)),
                model[j as int],
            ));
        }
        j = j + 1;
    }
    proof {
        assert(model.take(model.len() as int) =~= model);
    }
    merged
}

/// The score of a region against the image average, on a squared scale:
/// the square of the region's size times the squared distance of its
/// average color from the image average. More gathered pixels and more
/// distinctiveness both raise the score; working with squares keeps every
/// comparison of size-times-distance scores intact.
pub open spec fn region_score_spec(colors: Seq<Color>, image_avg: Color) -> int {
    colors.len() * colors.len() * distance_squared_spec(average_color_spec(colors), image_avg)
}

/// The index of the highest-scoring region among the first `n`, keeping
/// the earliest on ties.
pub open spec fn best_region_index_spec(
    regions: Seq<Seq<Color>>,
    image_avg: Color,
    n: int,
) -> int
    decreases n,
{
    if n <= 1 {
        0
    } else {
        let p = best_region_index_spec(regions, image_avg, n - 1);
        if region_score_spec(regions[n - 1], image_avg) > region_score_spec(
            regions[p],
            image_avg,
        ) {
            n - 1
        } else {
            p
        }
    }
}

impl Region {
    /// Computes the region's accent score on the squared scale.
    pub fn accent_score_squared(&self, average_image_color: &Color) -> (s: u128)
        requires
            self.wf(),
            self.colors@.len() > 0,
            self.colors@.len() <= 0xFFFF_FFFF,
        ensures
            s == region_score_spec(self.colors@, *average_image_color),
    {
        proof {
            lemma_distance_squared_bound(average_color_spec(self.colors@), *average_image_color);
        }
        let n = self.colors.len() as u128;
        let d = get_distance_squared(&self.average_color, average_image_color) as u128;
        proof {
            assert(n * n <= 0xFFFF_FFFFu128 * 0xFFFF_FFFFu128) by (nonlinear_arith)
                requires
                    n <= 0xFFFF_FFFFu128,
            ;
            assert(n * n * d <= 0xFFFF_FFFFu128 * 0xFFFF_FFFFu128 * 0x10000000000u128)
                by (nonlinear_arith)
                requires
                    n * n <= 0xFFFF_FFFFu128 * 0xFFFF_FFFFu128 && d <= 0x10000000000u128,
            ;
        }
        n * n * d
    }
}

/// The accent color of a pixel list: the average color of the
/// highest-scoring merged region, or the overall average color when no
/// pixel is an accent candidate.
pub open spec fn accent_color_spec(pixels: Seq<Color>) -> Color {
    let avg = average_color_spec(pixels);
    let merged = merge_regions_spec(collect_regions_spec(pixels));
    if merged.len() == 0 {
        avg
    } else {
        average_color_spec(
            merged[best_region_index_spec(merged, avg, merged.len() as int)],
        )
    }
}

/// Detects the most prominent non-neutral color of an image: candidate
/// pixels are clustered into regions, regions are merged, and the best
/// region's average color is returned; an image with no candidate pixels
/// returns its average color.
pub fn get_accent_color(image: &Image) -> (c: Color)
    requires
        image.wf(),
        image.pixels@.len() > 0,
    ensures
        c == accent_color_spec(image.pixels@),
{
    let average_image_color = get_average_color_from_image(image);
    let regions = collect_regions(&image.pixels);
    let merged = merge_regions(&regions);
    let ghost model = regions_model(merged@);
    proof {
        lemma_collect_regions_total(image.pixels@);
        lemma_merge_regions_total(regions_model(regions@));
    }
    if merged.len() == 0 {
        return average_image_color;
    }
    proof {
        lemma_region_le_total(model, 0);
        assert(model[0] == merged@[0].colors@);
    }
    let mut best_index: usize = 0;
    let mut best_score = merged[0].accent_score_squared(&average_image_color);
    let mut i: usize = 1;
    while i < merged.len()
        invariant
            1 <= i <= merged@.len(),
            model == regions_model(merged@),
            regions_wf(merged@),
            regions_total_spec(model) <= 0xFFFF_FFFF,
            best_index == best_region_index_spec(
                model,
                average_image_color,
                i as int,
            ),
            0 <= best_index < i,
            best_score == region_score_spec(model[best_index as int], average_image_color),
        decreases merged@.len() - i,
    {
        proof {
            lemma_region_le_total(model, i as int);
            assert(model[i as int] == merged@[i as int].colors@);
        }
        let score = merged[i].accent_score_squared(&average_image_color);
        if score > best_score {
            best_index = i;
            best_score = score;
        }
        i = i + 1;
    }
    proof {
        assert(model[best_index as int] == merged@[best_index as int].colors@);
    }
    merged[best_index].average_color
}

/// The graceful fallback: an image in which no pixel is an accent
/// candidate has its average color as its accent color.
pub proof fn lemma_accent_fallback(pixels: Seq<Color>)
    requires
        forall|i: int| 0 <= i < pixels.len() ==> !is_accent_color_spec(#[trigger] pixels[i]),
    ensures
        accent_color_spec(pixels) == average_color_spec(pixels),
{
    lemma_collect_no_candidates(pixels);
}

proof fn lemma_collect_no_candidates(pixels: Seq<Color>)
    requires
        forall|i: int| 0 <= i < pixels.len() ==> !is_accent_color_spec(#[trigger] pixels[i]),
    ensures
        collect_regions_spec(pixels) == Seq::<Seq<Color>>::empty(),
    decreases pixels.len(),
{
    if pixels.len() > 0 {
        assert(forall|i: int|
            0 <= i < pixels.drop_last().len() ==> !is_accent_color_spec(
                #[trigger] pixels.drop_last()[i],
            ));
        lemma_collect_no_candidates(pixels.drop_last());
        assert(!is_accent_color_spec(pixels.last()));
    }
}

} // verus!
