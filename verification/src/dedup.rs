//! Duplicate removal for color lists. Every spectrum is deduplicated so a
//! palette never holds the same color twice; the result keeps the first
//! occurrence of each color in the original order.

use vstd::prelude::*;
use crate::color::Color;

verus! {

/// How many distinct colors exist: 256 for each of the three channels.
pub const COLOR_SPACE_SIZE: usize = 16777216;

/// The table index of a color: the three channels packed in base 256.
pub open spec fn color_key_spec(c: Color) -> int {
    c.r * 65536 + c.g * 256 + c.b
}

/// Computes the table index of a color.
pub fn color_key(c: &Color) -> (k: usize)
    ensures
        k == color_key_spec(*c),
        k < COLOR_SPACE_SIZE,
{
    (c.r as usize) * 65536 + (c.g as usize) * 256 + (c.b as usize)
}

/// Two colors with the same table index are the same color.
pub proof fn lemma_color_key_injective(a: Color, b: Color)
    requires
        color_key_spec(a) == color_key_spec(b),
    ensures
        a == b,
{
    assert(a.r == b.r && a.g == b.g && a.b == b.b);
}

/// The deduplication of a color list: the sublist keeping the first
/// occurrence of each color, in order.
pub open spec fn dedup_spec(s: Seq<Color>) -> Seq<Color>
    decreases s.len(),
{
    if s.len() == 0 {
        Seq::empty()
    } else {
        let prefix = dedup_spec(s.drop_last());
        if s.drop_last().contains(s.last()) {
            prefix
        } else {
            prefix.push(s.last())
        }
    }
}

/// Deduplication keeps exactly the colors of the input: membership is
/// unchanged.
pub proof fn lemma_dedup_contains(s: Seq<Color>, x: Color)
    ensures
        dedup_spec(s).contains(x) <==> s.contains(x),
    decreases s.len(),
{
    if s.len() > 0 {
        lemma_dedup_contains(s.drop_last(), x);
        if s.contains(x) {
            let i = choose|i: int| 0 <= i < s.len() && s[i] == x;
            if i < s.len() - 1 {
                assert(s.drop_last()[i] == x);
            }
            if x == s.last() && s.drop_last().contains(x) {
                assert(dedup_spec(s).contains(x));
            }
        }
        if dedup_spec(s).contains(x) && !s.contains(x) {
            let i = choose|i: int| 0 <= i < dedup_spec(s).len() && dedup_spec(s)[i] == x;
            if s.drop_last().contains(s.last()) {
                assert(s.drop_last().contains(x));
            } else {
                if i < dedup_spec(s.drop_last()).len() {
                    assert(dedup_spec(s.drop_last()).contains(x));
                } else {
                    assert(x == s.last());
                    assert(s.contains(s.last()));
                }
            }
        }
        if s.contains(x) && !dedup_spec(s).contains(x) {
            if s.drop_last().contains(x) {
                assert(dedup_spec(s.drop_last()).contains(x));
                let i = choose|i: int|
                    0 <= i < dedup_spec(s.drop_last()).len() && dedup_spec(s.drop_last())[i] == x;
                assert(dedup_spec(s)[i] == x);
            } else {
                let i = choose|i: int| 0 <= i < s.len() && s[i] == x;
                if i < s.len() - 1 {
                    assert(s.drop_last()[i] == x);
                } else {
                    assert(x == s.last());
                    assert(dedup_spec(s).last() == x);
                }
            }
        }
    }
}

/// A deduplicated list holds no color twice.
pub proof fn lemma_dedup_no_duplicates(s: Seq<Color>)
    ensures
        dedup_spec(s).no_duplicates(),
    decreases s.len(),
{
    if s.len() > 0 {
        lemma_dedup_no_duplicates(s.drop_last());
        if !s.drop_last().contains(s.last()) {
            lemma_dedup_contains(s.drop_last(), s.last());
            assert(!dedup_spec(s.drop_last()).contains(s.last()));
            assert forall|i: int, j: int|
                0 <= i < dedup_spec(s).len() && 0 <= j < dedup_spec(s).len() && i != j implies
                dedup_spec(s)[i] != dedup_spec(s)[j] by {
                let prefix = dedup_spec(s.drop_last());
                if i < prefix.len() && j < prefix.len() {
                    assert(prefix[i] == dedup_spec(s)[i]);
                } else if i < prefix.len() {
                    assert(prefix.contains(prefix[i]));
                } else if j < prefix.len() {
                    assert(prefix.contains(prefix[j]));
                }
            }
        }
    }
}

/// Whether a color list contains a given color.
pub fn contains_color(list: &Vec<Color>, color: &Color) -> (r: bool)
    ensures
        r == list@.contains(*color),
{
    let mut i: usize = 0;
    while i < list.len()
        invariant
            0 <= i <= list@.len(),
            forall|j: int| 0 <= j < i ==> list@[j] != *color,
        decreases list@.len() - i,
    {
        if list[i].r == color.r && list[i].g == color.g && list[i].b == color.b {
            assert(list@[i as int] == *color);
            return true;
        }
        i = i + 1;
    }
    false
}

/// A table with one `false` entry for each point of the color space.
fn make_color_table() -> (t: Vec<bool>)
    ensures
        t@.len() == COLOR_SPACE_SIZE,
        forall|k: int| 0 <= k < t@.len() ==> !t@[k],
{
    let mut t: Vec<bool> = Vec::with_capacity(COLOR_SPACE_SIZE);
    while t.len() < COLOR_SPACE_SIZE
        invariant
            forall|k: int| 0 <= k < t@.len() ==> !t@[k],
            t@.len() <= COLOR_SPACE_SIZE,
        decreases COLOR_SPACE_SIZE - t@.len(),
    {
        t.push(false);
    }
    t
}

/// Removes duplicate colors from a list while keeping the original order of
/// first occurrences. Small lists are scanned directly; large lists go
/// through a seen-table over the whole color space so the work stays linear.
pub fn remove_duplicates_ordered(data: &Vec<Color>) -> (r: Vec<Color>)
    ensures
        r@ == dedup_spec(data@),
{
    if data.len() <= 2048 {
        remove_duplicates_small(data)
    } else {
        remove_duplicates_table(data)
    }
}

/// Removes duplicate colors from a list, with no promise about the order of
/// the result. This implementation keeps first-occurrence order, which any
/// caller content with an arbitrary order accepts.
pub fn remove_duplicates_unordered(data: &Vec<Color>) -> (r: Vec<Color>)
    ensures
        r@ == dedup_spec(data@),
{
    remove_duplicates_ordered(data)
}

fn remove_duplicates_small(data: &Vec<Color>) -> (r: Vec<Color>)
    ensures
        r@ == dedup_spec(data@),
{
    let mut out: Vec<Color> = Vec::new();
    let mut i: usize = 0;
    while i < data.len()
        invariant
            0 <= i <= data@.len(),
            out@ == dedup_spec(data@.take(i as int)),
        decreases data@.len() - i,
    {
        let c = data[i];
        proof {
            lemma_dedup_contains(data@.take(i as int), c);
        }
        if !contains_color(&out, &c) {
            out.push(c);
        }
        proof {
            assert(data@.take(i + 1).drop_last() =~= data@.take(i as int));
            assert(data@.take(i + 1).last() == c);
        }
        i = i + 1;
    }
    proof {
        assert(data@.take(data@.len() as int) =~= data@);
    }
    out
}

fn remove_duplicates_table(data: &Vec<Color>) -> (r: Vec<Color>)
    ensures
        r@ == dedup_spec(data@),
{
    let mut seen = make_color_table();
    let mut out: Vec<Color> = Vec::new();
    let mut i: usize = 0;
    while i < data.len()
        invariant
            0 <= i <= data@.len(),
            seen@.len() == COLOR_SPACE_SIZE,
            out@ == dedup_spec(data@.take(i as int)),
            forall|j: int| 0 <= j < i ==> #[trigger] seen@[color_key_spec(data@[j])],
            forall|k: int|
                0 <= k < COLOR_SPACE_SIZE && #[trigger] seen@[k] ==> (exists|j: int|
                    0 <= j < i && color_key_spec(data@[j]) == k),
        decreases data@.len() - i,
    {
        let c = data[i];
        let key = color_key(&c);
        let ghost prefix = data@.take(i as int);
        proof {
            if seen@[key as int] {
                let j = choose|j: int| 0 <= j < i && color_key_spec(data@[j]) == key as int;
                lemma_color_key_injective(data@[j], c);
                assert(prefix[j] == c);
                assert(prefix.contains(c));
            }
            if prefix.contains(c) {
                let j = choose|j: int| 0 <= j < prefix.len() && prefix[j] == c;
                assert(data@[j] == c);
                assert(seen@[color_key_spec(data@[j])]);
            }
        }
        if !seen[key] {
            out.push(c);
            seen[key] = true;
        }
        proof {
            assert(data@.take(i + 1).drop_last() =~= prefix);
            assert(data@.take(i + 1).last() == c);
            assert(data@[i as int] == c);
        }
        i = i + 1;
    }
    proof {
        assert(data@.take(data@.len() as int) =~= data@);
    }
    out
}

} // verus!
