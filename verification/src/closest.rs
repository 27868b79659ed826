//! Nearest-color search: the single closest palette entry to a given
//! color, in the plain and in the biased (two-palette) form. Ties are
//! always broken in favor of the first palette entry encountered, so the
//! search is a pure function of the palette order.

use vstd::prelude::*;
use crate::color::{distance_squared_spec, get_distance_squared, lemma_distance_squared_bound, Color};

verus! {

/// The index of the closest color among the first `n` palette entries,
/// keeping the earliest entry on ties.
pub open spec fn closest_index_prefix_spec(pallet: Seq<Color>, color: Color, n: int) -> int
    decreases n,
{
    if n <= 1 {
        0
    } else {
        let prev = closest_index_prefix_spec(pallet, color, n - 1);
        if distance_squared_spec(color, pallet[n - 1]) < distance_squared_spec(
            color,
            pallet[prev],
        ) {
            n - 1
        } else {
            prev
        }
    }
}

/// The closest palette color to a given color; the color itself when the
/// palette is empty.
pub open spec fn closest_color_spec(pallet: Seq<Color>, color: Color) -> Color {
    if pallet.len() == 0 {
        color
    } else {
        pallet[closest_index_prefix_spec(pallet, color, pallet.len() as int)]
    }
}

proof fn lemma_closest_index_prefix_properties(pallet: Seq<Color>, color: Color, n: int)
    requires
        1 <= n <= pallet.len(),
    ensures
        0 <= closest_index_prefix_spec(pallet, color, n) < n,
        forall|j: int|
            0 <= j < n ==> distance_squared_spec(
                color,
                pallet[closest_index_prefix_spec(pallet, color, n)],
            ) <= distance_squared_spec(color, #[trigger] pallet[j]),
        forall|j: int|
            0 <= j < closest_index_prefix_spec(pallet, color, n) ==> distance_squared_spec(
                color,
                pallet[closest_index_prefix_spec(pallet, color, n)],
            ) < distance_squared_spec(color, #[trigger] pallet[j]),
    decreases n,
{
    if n > 1 {
        lemma_closest_index_prefix_properties(pallet, color, n - 1);
    }
}

/// What the nearest-color search returns: a palette entry whose distance
/// to the color is minimal, and strictly closer than every entry before it
/// in the palette, so equal distances never change the outcome of a run.
pub proof fn lemma_closest_color_properties(pallet: Seq<Color>, color: Color)
    requires
        pallet.len() > 0,
    ensures
        pallet.contains(closest_color_spec(pallet, color)),
        forall|j: int|
            0 <= j < pallet.len() ==> distance_squared_spec(
                color,
                closest_color_spec(pallet, color),
            ) <= distance_squared_spec(color, #[trigger] pallet[j]),
{
    lemma_closest_index_prefix_properties(pallet, color, pallet.len() as int);
    let idx = closest_index_prefix_spec(pallet, color, pallet.len() as int);
    assert(pallet[idx] == closest_color_spec(pallet, color));
}

proof fn lemma_closest_prefix_stable_zero(pallet: Seq<Color>, color: Color, n: int, m: int)
    requires
        1 <= n <= m <= pallet.len(),
        distance_squared_spec(color, pallet[closest_index_prefix_spec(pallet, color, n)]) == 0,
    ensures
        closest_index_prefix_spec(pallet, color, m) == closest_index_prefix_spec(
            pallet,
            color,
            n,
        ),
    decreases m,
{
    if m > n {
        lemma_closest_prefix_stable_zero(pallet, color, n, m - 1);
        lemma_distance_squared_bound(color, pallet[m - 1]);
    }
}

/// Returns the closest color from a palette to a given color under the
/// weighted distance metric; an empty palette returns the color unchanged.
/// The scan stops early on an exact match, which cannot change the result.
pub fn get_closest_color(pallet: &Vec<Color>, color: &Color) -> (r: Color)
    ensures
        r == closest_color_spec(pallet@, *color),
{
    if pallet.len() == 0 {
        return *color;
    }
    let mut best = pallet[0];
    let mut best_d = get_distance_squared(color, &best);
    let mut i: usize = 1;
    while i < pallet.len()
        invariant
            1 <= i <= pallet@.len(),
            best == pallet@[closest_index_prefix_spec(pallet@, *color, i as int)],
            best_d == distance_squared_spec(*color, best),
        decreases pallet@.len() - i,
    {
        let d = get_distance_squared(color, &pallet[i]);
        if d < best_d {
            best = pallet[i];
            best_d = d;
        }
        i = i + 1;
        if best_d == 0 {
            proof {
                lemma_closest_prefix_stable_zero(pallet@, *color, i as int, pallet@.len() as int);
            }
            return best;
        }
    }
    best
}

/// The effective squared distance used by the biased search, on a scale
/// where the two palettes are comparable: entries of the biased palette
/// have their channel differences divided by the standard bias of 3/2
/// before squaring, so their squared distance carries a factor 4 where a
/// standard entry carries a factor 9.
pub open spec fn biased_eff_spec(
    biased: Seq<Color>,
    standard: Seq<Color>,
    color: Color,
    i: int,
) -> int {
    if i < biased.len() {
        4 * distance_squared_spec(color, biased[i])
    } else {
        9 * distance_squared_spec(color, standard[i - biased.len()])
    }
}

/// The index, in the biased-first then standard index space, of the entry
/// with the smallest effective distance among the first `n`, keeping the
/// earliest on ties.
pub open spec fn closest_biased_index_prefix_spec(
    biased: Seq<Color>,
    standard: Seq<Color>,
    color: Color,
    n: int,
) -> int
    decreases n,
{
    if n <= 1 {
        0
    } else {
        let prev = closest_biased_index_prefix_spec(biased, standard, color, n - 1);
        if biased_eff_spec(biased, standard, color, n - 1) < biased_eff_spec(
            biased,
            standard,
            color,
            prev,
        ) {
            n - 1
        } else {
            prev
        }
    }
}

/// The color the biased search picks: the entry of smallest effective
/// distance over the biased palette followed by the standard palette; the
/// color itself when the biased palette is empty.
pub open spec fn closest_biased_spec(
    biased: Seq<Color>,
    standard: Seq<Color>,
    color: Color,
) -> Color {
    if biased.len() == 0 {
        color
    } else {
        let idx = closest_biased_index_prefix_spec(
            biased,
            standard,
            color,
            (biased.len() + standard.len()) as int,
        );
        if idx < biased.len() {
            biased[idx]
        } else {
            standard[idx - biased.len()]
        }
    }
}

proof fn lemma_closest_biased_index_prefix_properties(
    biased: Seq<Color>,
    standard: Seq<Color>,
    color: Color,
    n: int,
)
    requires
        1 <= n <= biased.len() + standard.len(),
        biased.len() >= 1,
    ensures
        0 <= closest_biased_index_prefix_spec(biased, standard, color, n) < n,
        forall|j: int|
            0 <= j < n ==> biased_eff_spec(
                biased,
                standard,
                color,
                closest_biased_index_prefix_spec(biased, standard, color, n),
            ) <= #[trigger] biased_eff_spec(biased, standard, color, j),
        forall|j: int|
            0 <= j < closest_biased_index_prefix_spec(biased, standard, color, n)
                ==> biased_eff_spec(
                biased,
                standard,
                color,
                closest_biased_index_prefix_spec(biased, standard, color, n),
            ) < #[trigger] biased_eff_spec(biased, standard, color, j),
    decreases n,
{
    if n > 1 {
        lemma_closest_biased_index_prefix_properties(biased, standard, color, n - 1);
    }
}

/// The bias prefers the biased palette: whenever some biased entry is at
/// least as close to the color (under the plain, unbiased metric) as every
/// standard entry, the biased search returns a biased-palette color. In
/// particular a color equidistant between a biased and a standard entry
/// resolves to the biased one.
pub proof fn lemma_biased_preference(
    biased: Seq<Color>,
    standard: Seq<Color>,
    color: Color,
    i: int,
)
    requires
        0 <= i < biased.len(),
        forall|j: int|
            0 <= j < standard.len() ==> distance_squared_spec(color, biased[i])
                <= distance_squared_spec(color, #[trigger] standard[j]),
    ensures
        biased.contains(closest_biased_spec(biased, standard, color)),
{
    let total = (biased.len() + standard.len()) as int;
    lemma_closest_biased_index_prefix_properties(biased, standard, color, total);
    let idx = closest_biased_index_prefix_spec(biased, standard, color, total);
    if idx >= biased.len() {
        let sj = idx - biased.len();
        let ds = distance_squared_spec(color, standard[sj]);
        let db = distance_squared_spec(color, biased[i]);
        lemma_distance_squared_bound(color, standard[sj]);
        lemma_distance_squared_bound(color, biased[i]);
        assert(biased_eff_spec(biased, standard, color, i) == 4 * db);
        assert(biased_eff_spec(biased, standard, color, idx) == 9 * ds);
        // the winner is minimal, so 9 * ds <= 4 * db; but db <= ds, so
        // 4 * db <= 4 * ds, forcing 9 * ds <= 4 * ds, i.e. ds == 0; then
        // db == 0 too and the earlier biased entry would have won.
        assert(biased_eff_spec(biased, standard, color, idx) <= biased_eff_spec(
            biased,
            standard,
            color,
            i,
        ));
        assert(ds == 0);
        assert(db == 0);
        assert(biased_eff_spec(biased, standard, color, idx) < biased_eff_spec(
            biased,
            standard,
            color,
            i,
        ));
        assert(false);
    } else {
        assert(closest_biased_spec(biased, standard, color) == biased[idx]);
    }
}

/// Returns the closest color to a given color out of two palettes, with
/// the biased palette preferred: its entries are compared with their
/// distance shrunk by the standard bias. An empty biased palette returns
/// the color unchanged.
pub fn get_closest_color_biased(
    biased_pallet: &Vec<Color>,
    standard_pallet: &Vec<Color>,
    color: &Color,
) -> (r: Color)
    ensures
        r == closest_biased_spec(biased_pallet@, standard_pallet@, *color),
{
    if biased_pallet.len() == 0 {
        return *color;
    }
    let ghost bv = biased_pallet@;
    let ghost sv = standard_pallet@;
    proof {
        lemma_distance_squared_bound(*color, bv[0]);
    }
    let mut best = biased_pallet[0];
    let mut best_eff: u64 = 4 * get_distance_squared(color, &biased_pallet[0]);
    let ghost mut best_idx: int = 0;
    let mut i: usize = 1;
    while i < biased_pallet.len()
        invariant
            1 <= i <= bv.len(),
            bv == biased_pallet@,
            sv == standard_pallet@,
            best_idx == closest_biased_index_prefix_spec(bv, sv, *color, i as int),
            0 <= best_idx < i,
            best == bv[best_idx],
            best_eff == biased_eff_spec(bv, sv, *color, best_idx),
        decreases bv.len() - i,
    {
        proof {
            lemma_distance_squared_bound(*color, bv[i as int]);
        }
        let eff = 4 * get_distance_squared(color, &biased_pallet[i]);
        if eff < best_eff {
            best = biased_pallet[i];
            best_eff = eff;
            proof {
                best_idx = i as int;
            }
        }
        i = i + 1;
    }
    let mut k: usize = 0;
    while k < standard_pallet.len()
        invariant
            0 <= k <= sv.len(),
            bv == biased_pallet@,
            sv == standard_pallet@,
            bv.len() >= 1,
            best_idx == closest_biased_index_prefix_spec(
                bv,
                sv,
                *color,
                bv.len() + k as int,
            ),
            0 <= best_idx < bv.len() + k,
            best == (if best_idx < bv.len() {
                bv[best_idx]
            } else {
                sv[best_idx - bv.len()]
            }),
            best_eff == biased_eff_spec(bv, sv, *color, best_idx),
        decreases sv.len() - k,
    {
        proof {
            lemma_distance_squared_bound(*color, sv[k as int]);
        }
        let eff = 9 * get_distance_squared(color, &standard_pallet[k]);
        if eff < best_eff {
            best = standard_pallet[k];
            best_eff = eff;
            proof {
                best_idx = bv.len() + k as int;
            }
        }
        k = k + 1;
    }
    best
}

} // verus!
