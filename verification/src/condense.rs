//! Palette condensation: an oversized palette is coarsened by remapping
//! every color onto the center of a quantization bucket, with the bucket
//! width growing pass by pass until the palette fits under its ceiling.

use vstd::prelude::*;
use vstd::arithmetic::div_mod::{
    lemma_div_pos_is_pos, lemma_fundamental_div_mod, lemma_mod_division_less_than_divisor,
};
use crate::color::Color;
use crate::dedup::{dedup_spec, remove_duplicates_ordered};

verus! {

/// The largest number of quantization passes tried before condensation is
/// declared to have failed.
pub const MAX_CONDENSE_PASSES: usize = 50;

/// A channel value remapped to the center of its quantization bucket of
/// width `w`, clamped to the channel range.
pub open spec fn quantize_channel_spec(v: u8, w: int) -> int
    recommends
        w >= 1,
{
    let c = (v as int / w) * w + w / 2;
    if c > 255 {
        255
    } else {
        c
    }
}

/// A color remapped to the center of its quantization bucket along every
/// channel.
pub open spec fn quantize_color_spec(c: Color, w: int) -> Color {
    Color {
        r: quantize_channel_spec(c.r, w) as u8,
        g: quantize_channel_spec(c.g, w) as u8,
        b: quantize_channel_spec(c.b, w) as u8,
    }
}

/// A whole palette remapped to bucket centers.
pub open spec fn quantize_seq_spec(s: Seq<Color>, w: int) -> Seq<Color> {
    s.map_values(|c: Color| quantize_color_spec(c, w))
}

/// The palette after a number of condensation passes: pass `k` remaps the
/// previous result onto buckets of width `k + 1` and deduplicates.
pub open spec fn condense_passes_spec(p: Seq<Color>, pass: int) -> Seq<Color>
    decreases pass,
{
    if pass <= 0 {
        p
    } else {
        dedup_spec(quantize_seq_spec(condense_passes_spec(p, pass - 1), pass + 1))
    }
}

/// The first pass count at which the palette fits under the ceiling, or 51
/// when no pass up to the maximum does.
pub open spec fn first_fitting_pass_spec(p: Seq<Color>, ceiling: int, k: int) -> int
    decreases 51 - k,
{
    if k > 50 || k < 0 {
        51
    } else if condense_passes_spec(p, k).len() <= ceiling {
        k
    } else {
        first_fitting_pass_spec(p, ceiling, k + 1)
    }
}

proof fn lemma_first_fit_skip(p: Seq<Color>, ceiling: int, j: int, k: int)
    requires
        0 <= j <= k <= 51,
        forall|m: int| j <= m < k ==> condense_passes_spec(p, m).len() > ceiling,
    ensures
        first_fitting_pass_spec(p, ceiling, j) == first_fitting_pass_spec(p, ceiling, k),
    decreases k - j,
{
    if j < k {
        lemma_first_fit_skip(p, ceiling, j + 1, k);
    }
}

/// The diagnostic carried by a failed condensation: the ceiling that was
/// asked for and the palette size the final pass still had.
#[derive(Copy, Clone, Debug, PartialEq, Eq, Structural)]
pub struct CondenseError {
    pub ceiling: usize,
    pub size_reached: usize,
}

/// What condensing a palette returns: the input deduplicated when it
/// already fits the ceiling, else the first quantization pass that fits;
/// an error naming the ceiling and the size reached when no pass up to
/// the maximum fits.
pub open spec fn condense_result_spec(
    p: Seq<Color>,
    ceiling: int,
    r: Result<Vec<Color>, CondenseError>,
) -> bool {
    let p0 = dedup_spec(p);
    let k = first_fitting_pass_spec(p0, ceiling, 0);
    match r {
        Ok(v) => k <= 50 && v@ == condense_passes_spec(p0, k) && v@.len() <= ceiling,
        Err(e) => k == 51 && e.ceiling == ceiling && e.size_reached == condense_passes_spec(
            p0,
            50,
        ).len(),
    }
}

/// Computes the bucket-center remapping of one channel value.
pub fn quantize_channel(v: u8, w: u32) -> (r: u8)
    requires
        w >= 1,
    ensures
        r == quantize_channel_spec(v, w as int),
{
    proof {
        lemma_fundamental_div_mod(v as int, w as int);
        lemma_mod_division_less_than_divisor(v as int, w as int);
        lemma_div_pos_is_pos(v as int, w as int);
        vstd::arithmetic::mul::lemma_mul_is_commutative(v as int / w as int, w as int);
        assert((v as int / w as int) * (w as int) <= 255);
        assert((v as int / w as int) * (w as int) >= 0);
    }
    let q = ((v as u32) / w) * w + w / 2;
    if q > 255 {
        255
    } else {
        q as u8
    }
}

/// Computes the bucket-center remapping of a color.
pub fn quantize_color(c: &Color, w: u32) -> (r: Color)
    requires
        w >= 1,
    ensures
        r == quantize_color_spec(*c, w as int),
{
    Color {
        r: quantize_channel(c.r, w),
        g: quantize_channel(c.g, w),
        b: quantize_channel(c.b, w),
    }
}

fn quantize_list(list: &Vec<Color>, w: u32) -> (r: Vec<Color>)
    requires
        w >= 1,
    ensures
        r@ == quantize_seq_spec(list@, w as int),
{
    let mut out: Vec<Color> = Vec::with_capacity(list.len());
    let mut i: usize = 0;
    while i < list.len()
        invariant
            w >= 1,
            0 <= i <= list@.len(),
            out@ == quantize_seq_spec(list@.take(i as int), w as int),
        decreases list@.len() - i,
    {
        out.push(quantize_color(&list[i], w));
        proof {
            assert(quantize_seq_spec(list@.take(i + 1), w as int) =~= quantize_seq_spec(
                list@.take(i as int),
                w as int,
            ).push(quantize_color_spec(list@[i as int], w as int)));
        }
        i = i + 1;
    }
    proof {
        assert(list@.take(list@.len() as int) =~= list@);
    }
    out
}

/// Condenses a palette under a size ceiling: the input is deduplicated,
/// and while it is still too large it is remapped onto ever coarser
/// quantization buckets, one pass per width, deduplicating after each
/// pass. The result never exceeds the ceiling. When the maximum number of
/// passes still leaves the palette too large, the error names the ceiling
/// and the size actually reached.
pub fn condense_color_pallet(pallet: &Vec<Color>, ceiling: usize) -> (r: Result<
    Vec<Color>,
    CondenseError,
>)
    requires
        ceiling >= 1,
    ensures
        condense_result_spec(pallet@, ceiling as int, r),
        r matches Ok(v) ==> v@.len() <= ceiling,
{
    let ghost p0 = dedup_spec(pallet@);
    let mut current = remove_duplicates_ordered(pallet);
    let mut pass: usize = 0;
    loop
        invariant
            0 <= pass <= 50,
            ceiling >= 1,
            p0 == dedup_spec(pallet@),
            current@ == condense_passes_spec(p0, pass as int),
            forall|m: int| 0 <= m < pass ==> condense_passes_spec(p0, m).len() > ceiling,
        decreases 50 - pass,
    {
        if current.len() <= ceiling {
            proof {
                lemma_first_fit_skip(p0, ceiling as int, 0, pass as int);
            }
            return Ok(current);
        }
        if pass == MAX_CONDENSE_PASSES {
            proof {
                lemma_first_fit_skip(p0, ceiling as int, 0, 51);
            }
            return Err(CondenseError { ceiling, size_reached: current.len() });
        }
        pass = pass + 1;
        let width = (pass + 1) as u32;
        let quantized = quantize_list(&current, width);
        current = remove_duplicates_ordered(&quantized);
    }
}

} // verus!
