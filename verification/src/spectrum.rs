//! Spectrum construction: line spectra (white through a seed color to
//! black), plane spectra (blends of two line spectra) and web spectra
//! (unions of all pairwise plane blends).

use vstd::prelude::*;
use vstd::arithmetic::div_mod::{lemma_div_multiples_vanish_fancy, lemma_multiply_divide_lt};
use vstd::arithmetic::mul::lemma_mul_inequality;
use crate::color::{black, white, Color};
use crate::dedup::{dedup_spec, remove_duplicates_ordered, remove_duplicates_unordered};

verus! {

/// The number of interpolation steps between two colors, chosen so that no
/// two adjacent 8-bit values along any channel are skipped.
pub const INTERPOLATION_STEPS: usize = 442;

/// The channel value at interpolation step `k` on the way from `c1` to
/// `c2`: the value `c1 + k * (c2 - c1) / 442` rounded to the nearest
/// integer, written as a single integer division.
pub open spec fn lerp_channel_spec(c1: u8, c2: u8, k: int) -> int {
    (2 * (c1 * (442 - k) + c2 * k) + 442) / 884
}

/// The color at interpolation step `k` on the way from `c1` to `c2`.
pub open spec fn lerp_color_spec(c1: Color, c2: Color, k: int) -> Color {
    Color {
        r: lerp_channel_spec(c1.r, c2.r, k) as u8,
        g: lerp_channel_spec(c1.g, c2.g, k) as u8,
        b: lerp_channel_spec(c1.b, c2.b, k) as u8,
    }
}

/// The full interpolation walk from `c1` to `c2`, duplicates included.
pub open spec fn interpolation_seq_spec(c1: Color, c2: Color) -> Seq<Color> {
    Seq::new(443, |k: int| lerp_color_spec(c1, c2, k))
}

/// The colors between two colors: the interpolation walk, deduplicated in
/// generation order.
pub open spec fn colors_between_spec(c1: Color, c2: Color) -> Seq<Color> {
    dedup_spec(interpolation_seq_spec(c1, c2))
}

/// A channel interpolation stays inside the channel range.
proof fn lemma_lerp_channel_bounds(c1: u8, c2: u8, k: int)
    requires
        0 <= k <= 442,
    ensures
        0 <= lerp_channel_spec(c1, c2, k) <= 255,
{
    lemma_mul_inequality(c1 as int, 255, 442 - k);
    lemma_mul_inequality(c2 as int, 255, k);
    assert(c1 * (442 - k) <= 255 * (442 - k));
    assert(c2 * k <= 255 * k);
    assert(255 * (442 - k) + 255 * k == 255 * 442);
    let num = 2 * (c1 * (442 - k) + c2 * k) + 442;
    assert(num <= 2 * (255 * 442) + 442);
    assert(num < 884 * 256);
    lemma_multiply_divide_lt(num, 884, 256);
    vstd::arithmetic::mul::lemma_mul_nonnegative(c1 as int, 442 - k);
    vstd::arithmetic::mul::lemma_mul_nonnegative(c2 as int, k);
    vstd::arithmetic::div_mod::lemma_div_pos_is_pos(num, 884);
}

/// The interpolation walk starts exactly at `c1` and ends exactly at `c2`.
pub proof fn lemma_lerp_endpoints(c1: Color, c2: Color)
    ensures
        lerp_color_spec(c1, c2, 0) == c1,
        lerp_color_spec(c1, c2, 442) == c2,
{
    lemma_lerp_channel_endpoints(c1.r, c2.r);
    lemma_lerp_channel_endpoints(c1.g, c2.g);
    lemma_lerp_channel_endpoints(c1.b, c2.b);
}

proof fn lemma_lerp_channel_endpoints(c1: u8, c2: u8)
    ensures
        lerp_channel_spec(c1, c2, 0) == c1,
        lerp_channel_spec(c1, c2, 442) == c2,
{
    assert(2 * (c1 * 442 + c2 * 0) + 442 == 884 * c1 + 442);
    lemma_div_multiples_vanish_fancy(c1 as int, 442, 884);
    assert(2 * (c1 * (442 - 442) + c2 * 442) + 442 == 884 * c2 + 442);
    lemma_div_multiples_vanish_fancy(c2 as int, 442, 884);
}

/// Computes one interpolated channel value.
fn lerp_channel(c1: u8, c2: u8, k: usize) -> (v: u8)
    requires
        k <= 442,
    ensures
        v == lerp_channel_spec(c1, c2, k as int),
{
    proof {
        lemma_lerp_channel_bounds(c1, c2, k as int);
        lemma_mul_inequality(c1 as int, 255, 442 - k);
        lemma_mul_inequality(c2 as int, 255, k as int);
        vstd::arithmetic::mul::lemma_mul_nonnegative(c1 as int, 442 - k);
        vstd::arithmetic::mul::lemma_mul_nonnegative(c2 as int, k as int);
    }
    let a = c1 as u32;
    let b = c2 as u32;
    let kk = k as u32;
    let num = 2 * (a * (442 - kk) + b * kk) + 442;
    (num / 884) as u8
}

/// Computes the color at interpolation step `k` from `c1` to `c2`.
fn lerp_color(c1: &Color, c2: &Color, k: usize) -> (c: Color)
    requires
        k <= 442,
    ensures
        c == lerp_color_spec(*c1, *c2, k as int),
{
    Color {
        r: lerp_channel(c1.r, c2.r, k),
        g: lerp_channel(c1.g, c2.g, k),
        b: lerp_channel(c1.b, c2.b, k),
    }
}

/// All the colors between two colors: 443 interpolation steps from the
/// first to the second, deduplicated in generation order.
pub fn get_colors_between(color_1: &Color, color_2: &Color) -> (r: Vec<Color>)
    ensures
        r@ == colors_between_spec(*color_1, *color_2),
{
    let ghost walk = interpolation_seq_spec(*color_1, *color_2);
    let mut spectrum: Vec<Color> = Vec::with_capacity(443);
    let mut k: usize = 0;
    while k < 443
        invariant
            0 <= k <= 443,
            walk == interpolation_seq_spec(*color_1, *color_2),
            spectrum@ == walk.take(k as int),
        decreases 443 - k,
    {
        spectrum.push(lerp_color(color_1, color_2, k));
        proof {
            assert(walk.take(k + 1) =~= walk.take(k as int).push(walk[k as int]));
        }
        k = k + 1;
    }
    proof {
        assert(walk.take(443) =~= walk);
    }
    remove_duplicates_ordered(&spectrum)
}

/// The line spectrum of a seed color: the colors from white to the seed,
/// then from the seed to black, deduplicated in generation order.
pub open spec fn line_spectrum_spec(seed: Color) -> Seq<Color> {
    dedup_spec(
        colors_between_spec(Color { r: 255, g: 255, b: 255 }, seed) + colors_between_spec(
            seed,
            Color { r: 0, g: 0, b: 0 },
        ),
    )
}

/// The line spectrum of a seed color: a smooth gradient running white,
/// seed, black, with no color listed twice.
pub fn get_1d_spectrum(color: &Color) -> (r: Vec<Color>)
    ensures
        r@ == line_spectrum_spec(*color),
{
    let mut spectrum = get_colors_between(&white(), color);
    let mut tail = get_colors_between(color, &black());
    spectrum.append(&mut tail);
    remove_duplicates_ordered(&spectrum)
}

/// A line spectrum always contains pure white, pure black and the seed
/// color itself, and holds no duplicate entries.
pub proof fn lemma_line_spectrum_endpoints(seed: Color)
    ensures
        line_spectrum_spec(seed).contains(Color { r: 255, g: 255, b: 255 }),
        line_spectrum_spec(seed).contains(Color { r: 0, g: 0, b: 0 }),
        line_spectrum_spec(seed).contains(seed),
        line_spectrum_spec(seed).no_duplicates(),
{
    let w = Color { r: 255, g: 255, b: 255 };
    let bk = Color { r: 0, g: 0, b: 0 };
    let first = colors_between_spec(w, seed);
    let second = colors_between_spec(seed, bk);
    let cat = first + second;
    lemma_lerp_endpoints(w, seed);
    lemma_lerp_endpoints(seed, bk);
    assert(interpolation_seq_spec(w, seed)[0] == w);
    assert(interpolation_seq_spec(w, seed).contains(w));
    assert(interpolation_seq_spec(w, seed)[442] == seed);
    assert(interpolation_seq_spec(w, seed).contains(seed));
    assert(interpolation_seq_spec(seed, bk)[442] == bk);
    assert(interpolation_seq_spec(seed, bk).contains(bk));
    crate::dedup::lemma_dedup_contains(interpolation_seq_spec(w, seed), w);
    crate::dedup::lemma_dedup_contains(interpolation_seq_spec(w, seed), seed);
    crate::dedup::lemma_dedup_contains(interpolation_seq_spec(seed, bk), bk);
    let iw = choose|i: int| 0 <= i < first.len() && first[i] == w;
    assert(cat[iw] == w);
    assert(cat.contains(w));
    let is = choose|i: int| 0 <= i < first.len() && first[i] == seed;
    assert(cat[is] == seed);
    assert(cat.contains(seed));
    let ib = choose|i: int| 0 <= i < second.len() && second[i] == bk;
    assert(cat[first.len() + ib] == bk);
    assert(cat.contains(bk));
    crate::dedup::lemma_dedup_contains(cat, w);
    crate::dedup::lemma_dedup_contains(cat, seed);
    crate::dedup::lemma_dedup_contains(cat, bk);
    crate::dedup::lemma_dedup_no_duplicates(cat);
}

/// Builds the line spectrum of each seed color, one list per seed, keeping
/// the per-seed gradients apart instead of merging them.
pub fn get_line_spectrums(seeds: &Vec<Color>) -> (r: Vec<Vec<Color>>)
    ensures
        r@.len() == seeds@.len(),
        forall|i: int| 0 <= i < r@.len() ==> #[trigger] r@[i]@ == line_spectrum_spec(seeds@[i]),
{
    let mut out: Vec<Vec<Color>> = Vec::with_capacity(seeds.len());
    let mut i: usize = 0;
    while i < seeds.len()
        invariant
            0 <= i <= seeds@.len(),
            out@.len() == i,
            forall|j: int| 0 <= j < i ==> #[trigger] out@[j]@ == line_spectrum_spec(seeds@[j]),
        decreases seeds@.len() - i,
    {
        let line = get_1d_spectrum(&seeds[i]);
        out.push(line);
        i = i + 1;
    }
    out
}

/// The concatenation of the line spectra of a list of seed colors.
pub open spec fn line_spectra_concat_spec(seeds: Seq<Color>) -> Seq<Color>
    decreases seeds.len(),
{
    if seeds.len() == 0 {
        Seq::empty()
    } else {
        line_spectra_concat_spec(seeds.drop_last()) + line_spectrum_spec(seeds.last())
    }
}

/// Merges the line spectra of all the seed colors of a palette into a
/// single deduplicated palette.
pub fn get_1d_spectrums_for_pallet(pallet: &Vec<Color>) -> (r: Vec<Color>)
    ensures
        r@ == dedup_spec(line_spectra_concat_spec(pallet@)),
{
    let mut acc: Vec<Color> = Vec::new();
    let mut i: usize = 0;
    while i < pallet.len()
        invariant
            0 <= i <= pallet@.len(),
            acc@ == line_spectra_concat_spec(pallet@.take(i as int)),
        decreases pallet@.len() - i,
    {
        let mut line = get_1d_spectrum(&pallet[i]);
        acc.append(&mut line);
        proof {
            assert(pallet@.take(i + 1).drop_last() =~= pallet@.take(i as int));
            assert(pallet@.take(i + 1).last() == pallet@[i as int]);
        }
        i = i + 1;
    }
    proof {
        assert(pallet@.take(pallet@.len() as int) =~= pallet@);
    }
    remove_duplicates_ordered(&acc)
}

/// The colors one index of a plane blend contributes: the colors between
/// the two spectra at that index, and between their mirrored tail
/// positions.
pub open spec fn plane_pair_spec(a: Seq<Color>, b: Seq<Color>, i: int) -> Seq<Color> {
    colors_between_spec(a[i], b[i]) + colors_between_spec(
        a[a.len() - 1 - i],
        b[b.len() - 1 - i],
    )
}

/// The concatenation of the first `n` index contributions of a plane blend.
pub open spec fn plane_concat_spec(a: Seq<Color>, b: Seq<Color>, n: int) -> Seq<Color>
    decreases n,
{
    if n <= 0 {
        Seq::empty()
    } else {
        plane_concat_spec(a, b, n - 1) + plane_pair_spec(a, b, n - 1)
    }
}

/// The plane spectrum of two line spectra: index-aligned blends over the
/// shorter length, deduplicated.
pub open spec fn plane_spectrum_spec(a: Seq<Color>, b: Seq<Color>) -> Seq<Color> {
    let n = if a.len() <= b.len() {
        a.len() as int
    } else {
        b.len() as int
    };
    dedup_spec(plane_concat_spec(a, b, n))
}

/// Blends two line spectra into the region of color space between them:
/// for each index up to the shorter length, the colors between the two
/// spectra at that index and at the mirrored tail index.
pub fn get_plane_spectrum(line_a: &Vec<Color>, line_b: &Vec<Color>) -> (r: Vec<Color>)
    ensures
        r@ == plane_spectrum_spec(line_a@, line_b@),
{
    let steps = if line_a.len() <= line_b.len() {
        line_a.len()
    } else {
        line_b.len()
    };
    let mut spectrum: Vec<Color> = Vec::new();
    let mut i: usize = 0;
    while i < steps
        invariant
            0 <= i <= steps,
            steps <= line_a@.len() && steps <= line_b@.len(),
            steps == if line_a@.len() <= line_b@.len() {
                line_a@.len() as int
            } else {
                line_b@.len() as int
            },
            spectrum@ == plane_concat_spec(line_a@, line_b@, i as int),
        decreases steps - i,
    {
        let mut part = get_colors_between(&line_a[i], &line_b[i]);
        let mut tail_part = get_colors_between(
            &line_a[line_a.len() - 1 - i],
            &line_b[line_b.len() - 1 - i],
        );
        part.append(&mut tail_part);
        spectrum.append(&mut part);
        proof {
            assert(spectrum@ =~= plane_concat_spec(line_a@, line_b@, i + 1));
        }
        i = i + 1;
    }
    remove_duplicates_unordered(&spectrum)
}

/// The plane spectrum of the line spectra of two seed colors.
pub fn get_2d_spectrum(color_1: &Color, color_2: &Color) -> (r: Vec<Color>)
    ensures
        r@ == plane_spectrum_spec(line_spectrum_spec(*color_1), line_spectrum_spec(*color_2)),
{
    let line_a = get_1d_spectrum(color_1);
    let line_b = get_1d_spectrum(color_2);
    get_plane_spectrum(&line_a, &line_b)
}

/// The plane spectra a single first line contributes to a web: one blend
/// with each of the first `j` other lines, skipping itself.
pub open spec fn web_row_spec(lines: Seq<Seq<Color>>, i: int, j: int) -> Seq<Color>
    decreases j,
{
    if j <= 0 {
        Seq::empty()
    } else {
        web_row_spec(lines, i, j - 1) + (if j - 1 == i {
            Seq::empty()
        } else {
            plane_spectrum_spec(lines[i], lines[j - 1])
        })
    }
}

/// The concatenation of the rows of a web blend for the first `i` lines.
pub open spec fn web_rows_spec(lines: Seq<Seq<Color>>, i: int) -> Seq<Color>
    decreases i,
{
    if i <= 0 {
        Seq::empty()
    } else {
        web_rows_spec(lines, i - 1) + web_row_spec(lines, i - 1, lines.len() as int)
    }
}

/// The web spectrum of a list of line spectra: the union of the plane
/// spectra of every ordered pair of distinct lines, deduplicated.
pub open spec fn web_spectrum_spec(lines: Seq<Seq<Color>>) -> Seq<Color> {
    dedup_spec(web_rows_spec(lines, lines.len() as int))
}

/// Unions the plane spectra of every ordered pair of distinct line spectra
/// in the list, deduplicated into one palette.
pub fn get_web_spectrum(lines: &Vec<Vec<Color>>) -> (r: Vec<Color>)
    ensures
        r@ == web_spectrum_spec(lines@.map_values(|v: Vec<Color>| v@)),
{
    let ghost lv = lines@.map_values(|v: Vec<Color>| v@);
    let mut spectrum: Vec<Color> = Vec::new();
    let mut i: usize = 0;
    while i < lines.len()
        invariant
            0 <= i <= lines@.len(),
            lv == lines@.map_values(|v: Vec<Color>| v@),
            spectrum@ == web_rows_spec(lv, i as int),
        decreases lines@.len() - i,
    {
        let mut j: usize = 0;
        while j < lines.len()
            invariant
                0 <= i < lines@.len(),
                0 <= j <= lines@.len(),
                lv == lines@.map_values(|v: Vec<Color>| v@),
                spectrum@ == web_rows_spec(lv, i as int) + web_row_spec(lv, i as int, j as int),
            decreases lines@.len() - j,
        {
            if j != i {
                let mut plane = get_plane_spectrum(&lines[i], &lines[j]);
                spectrum.append(&mut plane);
            }
            proof {
                assert(lv[i as int] == lines@[i as int]@);
                assert(lv[j as int] == lines@[j as int]@);
                assert(spectrum@ =~= web_rows_spec(lv, i as int) + web_row_spec(
                    lv,
                    i as int,
                    j + 1,
                ));
            }
            j = j + 1;
        }
        proof {
            assert(spectrum@ =~= web_rows_spec(lv, i + 1));
        }
        i = i + 1;
    }
    remove_duplicates_ordered(&spectrum)
}

} // verus!
