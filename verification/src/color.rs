//! The base color value type, hex-code parsing and the weighted distance
//! metric that every other component builds on.

use vstd::prelude::*;

verus! {

/// An 8-bit-per-channel RGB color. Equality is exact channel comparison.
#[derive(Copy, Clone, Debug, PartialEq, Eq, Hash, Structural)]
pub struct Color {
    pub r: u8,
    pub g: u8,
    pub b: u8,
}

impl Color {
    /// Builds a color from its three channel values.
    pub fn new(r: u8, g: u8, b: u8) -> (c: Color)
        ensures
            c == (Color { r, g, b }),
    {
        Color { r, g, b }
    }
}

/// Pure white, the bright end of every line spectrum.
pub fn white() -> (c: Color)
    ensures
        c == (Color { r: 255, g: 255, b: 255 }),
{
    Color { r: 255, g: 255, b: 255 }
}

/// Pure black, the dark end of every line spectrum.
pub fn black() -> (c: Color)
    ensures
        c == (Color { r: 0, g: 0, b: 0 }),
{
    Color { r: 0, g: 0, b: 0 }
}

/// Whether a character is an ASCII hexadecimal digit.
pub open spec fn is_hex_digit_char(c: char) -> bool {
    (48 <= c as u32 && c as u32 <= 57)  // '0' to '9'
     || (97 <= c as u32 && c as u32 <= 102)  // 'a' to 'f'
     || (65 <= c as u32 && c as u32 <= 70)  // 'A' to 'F'

}

/// The numeric value of an ASCII hexadecimal digit.
pub open spec fn hex_digit_value_char(c: char) -> int
    recommends
        is_hex_digit_char(c),
{
    if 48 <= c as u32 && c as u32 <= 57 {
        c as u32 - 48
    } else if 97 <= c as u32 && c as u32 <= 102 {
        c as u32 - 87
    } else {
        c as u32 - 55
    }
}

/// Whether the string starts with the one optional '#' a hex code may
/// carry: 1 when it does, 0 when it does not.
pub open spec fn hash_prefix_len(s: Seq<char>) -> int {
    if s.len() > 0 && s[0] == '#' {
        1
    } else {
        0
    }
}

/// The hex code with its optional leading '#' removed.
pub open spec fn hex_body(s: Seq<char>) -> Seq<char> {
    s.skip(hash_prefix_len(s))
}

/// A string is a valid hex color code when, after dropping one optional
/// leading '#', it has length 3, 6 or 8 and holds only hex digits.
pub open spec fn is_hex_spec(s: Seq<char>) -> bool {
    let b = hex_body(s);
    (b.len() == 3 || b.len() == 6 || b.len() == 8) && (forall|i: int|
        0 <= i < b.len() ==> is_hex_digit_char(#[trigger] b[i]))
}

/// The color a valid hex code denotes: a 3-digit code doubles each nibble,
/// 6- and 8-digit codes read two digits per channel; alpha digits of an
/// 8-digit code are discarded.
pub open spec fn hex_to_color_spec(s: Seq<char>) -> Color
    recommends
        is_hex_spec(s),
{
    let b = hex_body(s);
    if b.len() == 3 {
        Color {
            r: (17 * hex_digit_value_char(b[0])) as u8,
            g: (17 * hex_digit_value_char(b[1])) as u8,
            b: (17 * hex_digit_value_char(b[2])) as u8,
        }
    } else {
        Color {
            r: (16 * hex_digit_value_char(b[0]) + hex_digit_value_char(b[1])) as u8,
            g: (16 * hex_digit_value_char(b[2]) + hex_digit_value_char(b[3])) as u8,
            b: (16 * hex_digit_value_char(b[4]) + hex_digit_value_char(b[5])) as u8,
        }
    }
}

/// Steps over the one optional leading '#', returning the index where the
/// hex digits start.
fn scan_hash_prefix(s: &str, n: usize) -> (start: usize)
    requires
        n == s@.len(),
    ensures
        start == hash_prefix_len(s@),
        start <= n,
{
    if n > 0 && s.get_char(0) == '#' {
        1
    } else {
        0
    }
}

/// Whether a character is an ASCII hexadecimal digit.
pub fn is_hex_digit(c: char) -> (r: bool)
    ensures
        r == is_hex_digit_char(c),
{
    let v = c as u32;
    (48 <= v && v <= 57) || (97 <= v && v <= 102) || (65 <= v && v <= 70)
}

/// The numeric value of an ASCII hexadecimal digit.
pub fn hex_digit_value(c: char) -> (v: u8)
    requires
        is_hex_digit_char(c),
    ensures
        v == hex_digit_value_char(c),
        v <= 15,
{
    let u = c as u32;
    if 48 <= u && u <= 57 {
        (u - 48) as u8
    } else if 97 <= u && u <= 102 {
        (u - 87) as u8
    } else {
        (u - 55) as u8
    }
}

/// Checks whether a string is a valid hex color code: after trimming one
/// optional leading '#', it must have length 3, 6 or 8 and hold only hex
/// digits.
pub fn is_hex(code: &String) -> (r: bool)
    ensures
        r == is_hex_spec(code@),
{
    let s = code.as_str();
    let n = s.unicode_len();
    let start = scan_hash_prefix(s, n);
    let rem = n - start;
    if rem != 3 && rem != 6 && rem != 8 {
        return false;
    }
    let mut i = start;
    while i < n
        invariant
            s@ == code@,
            s@.len() == n,
            start == hash_prefix_len(s@),
            start <= i <= n,
            n - start == 3 || n - start == 6 || n - start == 8,
            forall|j: int| start <= j < i ==> is_hex_digit_char(#[trigger] s@[j]),
        decreases n - i,
    {
        if !is_hex_digit(s.get_char(i)) {
            assert(hex_body(s@).len() == n - start);
            assert(!is_hex_digit_char(hex_body(s@)[i - start]));
            return false;
        }
        i = i + 1;
    }
    assert(forall|k: int|
        0 <= k < hex_body(s@).len() ==> is_hex_digit_char(#[trigger] hex_body(s@)[k]));
    true
}

/// Parses a hex color code to a color; `None` exactly when the code is not a
/// valid hex color code. The alpha digits of an 8-digit code are discarded.
pub fn as_rgb(hex: &String) -> (c: Option<Color>)
    ensures
        c == (if is_hex_spec(hex@) {
            Some(hex_to_color_spec(hex@))
        } else {
            None::<Color>
        }),
{
    if !is_hex(hex) {
        return None;
    }
    let s = hex.as_str();
    let n = s.unicode_len();
    let start = scan_hash_prefix(s, n);
    let rem = n - start;
    let ghost b = hex_body(hex@);
    if rem == 3 {
        proof {
            assert(b[0] == hex@[start as int]);
            assert(b[1] == hex@[start + 1]);
            assert(b[2] == hex@[start + 2]);
        }
        let v0 = hex_digit_value(s.get_char(start));
        let v1 = hex_digit_value(s.get_char(start + 1));
        let v2 = hex_digit_value(s.get_char(start + 2));
        Some(Color { r: 17 * v0, g: 17 * v1, b: 17 * v2 })
    } else {
        proof {
            assert(b[0] == hex@[start as int]);
            assert(b[1] == hex@[start + 1]);
            assert(b[2] == hex@[start + 2]);
            assert(b[3] == hex@[start + 3]);
            assert(b[4] == hex@[start + 4]);
            assert(b[5] == hex@[start + 5]);
        }
        let v0 = hex_digit_value(s.get_char(start));
        let v1 = hex_digit_value(s.get_char(start + 1));
        let v2 = hex_digit_value(s.get_char(start + 2));
        let v3 = hex_digit_value(s.get_char(start + 3));
        let v4 = hex_digit_value(s.get_char(start + 4));
        let v5 = hex_digit_value(s.get_char(start + 5));
        Some(Color { r: 16 * v0 + v1, g: 16 * v2 + v3, b: 16 * v4 + v5 })
    }
}

/// The absolute difference of two channel values.
pub open spec fn abs_diff(x: u8, y: u8) -> int {
    if x >= y {
        x - y
    } else {
        y - x
    }
}

/// The perceptual distance between two colors, as a squared value scaled by
/// 1000 in each channel weight: the luma weights 0.299, 0.587 and 0.114
/// become the integer factors 299, 587 and 114, so this equals
/// (1000 * d)^2 where d is the real weighted Euclidean distance. The
/// scaling is strictly monotone, so every comparison of real distances is a
/// comparison of these values.
pub open spec fn distance_squared_spec(a: Color, b: Color) -> int {
    let dr = 299 * abs_diff(a.r, b.r);
    let dg = 587 * abs_diff(a.g, b.g);
    let db = 114 * abs_diff(a.b, b.b);
    dr * dr + dg * dg + db * db
}

/// Computes the scaled squared distance between two colors.
pub fn get_distance_squared(color_1: &Color, color_2: &Color) -> (d: u64)
    ensures
        d == distance_squared_spec(*color_1, *color_2),
{
    let dr: u64 = 299 * (if color_1.r >= color_2.r {
        (color_1.r - color_2.r) as u64
    } else {
        (color_2.r - color_1.r) as u64
    });
    let dg: u64 = 587 * (if color_1.g >= color_2.g {
        (color_1.g - color_2.g) as u64
    } else {
        (color_2.g - color_1.g) as u64
    });
    let db: u64 = 114 * (if color_1.b >= color_2.b {
        (color_1.b - color_2.b) as u64
    } else {
        (color_2.b - color_1.b) as u64
    });
    assert(dr * dr <= 149685 * 149685) by (nonlinear_arith)
        requires
            dr <= 149685,
    ;
    assert(dg * dg <= 149685 * 149685) by (nonlinear_arith)
        requires
            dg <= 149685,
    ;
    assert(db * db <= 149685 * 149685) by (nonlinear_arith)
        requires
            db <= 149685,
    ;
    dr * dr + dg * dg + db * db
}

/// The sum of the red channels of a list of colors.
pub open spec fn sum_r_spec(s: Seq<Color>) -> int
    decreases s.len(),
{
    if s.len() == 0 {
        0
    } else {
        sum_r_spec(s.drop_last()) + s.last().r
    }
}

/// The sum of the green channels of a list of colors.
pub open spec fn sum_g_spec(s: Seq<Color>) -> int
    decreases s.len(),
{
    if s.len() == 0 {
        0
    } else {
        sum_g_spec(s.drop_last()) + s.last().g
    }
}

/// The sum of the blue channels of a list of colors.
pub open spec fn sum_b_spec(s: Seq<Color>) -> int
    decreases s.len(),
{
    if s.len() == 0 {
        0
    } else {
        sum_b_spec(s.drop_last()) + s.last().b
    }
}

/// A channel mean rounded to the nearest integer, written as a single
/// integer division.
pub open spec fn average_channel_spec(sum: int, n: int) -> int
    recommends
        n >= 1,
{
    (2 * sum + n) / (2 * n)
}

/// The average color of a nonempty list: the rounded mean of each channel.
pub open spec fn average_color_spec(s: Seq<Color>) -> Color
    recommends
        s.len() > 0,
{
    Color {
        r: average_channel_spec(sum_r_spec(s), s.len() as int) as u8,
        g: average_channel_spec(sum_g_spec(s), s.len() as int) as u8,
        b: average_channel_spec(sum_b_spec(s), s.len() as int) as u8,
    }
}

/// Channel sums lie between 0 and 255 per color.
pub proof fn lemma_sum_bounds(s: Seq<Color>)
    ensures
        0 <= sum_r_spec(s) <= 255 * s.len(),
        0 <= sum_g_spec(s) <= 255 * s.len(),
        0 <= sum_b_spec(s) <= 255 * s.len(),
    decreases s.len(),
{
    if s.len() > 0 {
        lemma_sum_bounds(s.drop_last());
    }
}

proof fn lemma_average_channel_in_range(sum: int, n: int)
    requires
        n >= 1,
        0 <= sum <= 255 * n,
    ensures
        0 <= average_channel_spec(sum, n) <= 255,
{
    let d = 2 * n;
    let x = 2 * sum + n;
    let q = x / d;
    vstd::arithmetic::div_mod::lemma_fundamental_div_mod(x, d);
    vstd::arithmetic::div_mod::lemma_mod_division_less_than_divisor(x, d);
    vstd::arithmetic::div_mod::lemma_div_pos_is_pos(x, d);
    assert(d * q <= x);
    assert(q <= 255) by (nonlinear_arith)
        requires
            d == 2 * n,
            d * q <= 2 * sum + n,
            sum <= 255 * n,
            n >= 1,
    ;
}

/// Computes the average color of a nonempty list of pixels: the mean of
/// each channel, rounded to the nearest integer.
pub fn get_average_color_from_pixels(pixels: &Vec<Color>) -> (c: Color)
    requires
        pixels@.len() > 0,
    ensures
        c == average_color_spec(pixels@),
{
    let mut sr: u128 = 0;
    let mut sg: u128 = 0;
    let mut sb: u128 = 0;
    let mut i: usize = 0;
    proof {
        lemma_sum_bounds(pixels@);
    }
    while i < pixels.len()
        invariant
            0 <= i <= pixels@.len(),
            sr == sum_r_spec(pixels@.take(i as int)),
            sg == sum_g_spec(pixels@.take(i as int)),
            sb == sum_b_spec(pixels@.take(i as int)),
        decreases pixels@.len() - i,
    {
        proof {
            lemma_sum_bounds(pixels@.take(i as int));
            assert(pixels@.take(i as int).len() == i);
            assert(pixels@.take(i + 1).drop_last() =~= pixels@.take(i as int));
            assert(pixels@.take(i + 1).last() == pixels@[i as int]);
        }
        sr = sr + pixels[i].r as u128;
        sg = sg + pixels[i].g as u128;
        sb = sb + pixels[i].b as u128;
        i = i + 1;
    }
    proof {
        assert(pixels@.take(pixels@.len() as int) =~= pixels@);
        lemma_average_channel_in_range(sum_r_spec(pixels@), pixels@.len() as int);
        lemma_average_channel_in_range(sum_g_spec(pixels@), pixels@.len() as int);
        lemma_average_channel_in_range(sum_b_spec(pixels@), pixels@.len() as int);
    }
    let n = pixels.len() as u128;
    let r = ((2 * sr + n) / (2 * n)) as u8;
    let g = ((2 * sg + n) / (2 * n)) as u8;
    let b = ((2 * sb + n) / (2 * n)) as u8;
    Color { r, g, b }
}

/// The distance metric is symmetric and zero on the diagonal: for all colors
/// a and b, distance(a, b) equals distance(b, a), and distance(a, a) is 0.
pub proof fn lemma_distance_symmetry(a: Color, b: Color)
    ensures
        distance_squared_spec(a, b) == distance_squared_spec(b, a),
        distance_squared_spec(a, a) == 0,
{
    assert(abs_diff(a.r, a.r) == 0);
    assert(abs_diff(a.g, a.g) == 0);
    assert(abs_diff(a.b, a.b) == 0);
    assert(distance_squared_spec(a, a) == 0) by (nonlinear_arith)
        requires
            abs_diff(a.r, a.r) == 0 && abs_diff(a.g, a.g) == 0 && abs_diff(a.b, a.b) == 0,
    ;
}

/// An upper bound on the scaled squared distance, used to keep later
/// arithmetic on distances inside machine integers.
pub proof fn lemma_distance_squared_bound(a: Color, b: Color)
    ensures
        0 <= distance_squared_spec(a, b) <= 3 * 149685 * 149685,
{
    let dr = 299 * abs_diff(a.r, b.r);
    let dg = 587 * abs_diff(a.g, b.g);
    let db = 114 * abs_diff(a.b, b.b);
    assert(dr * dr <= 149685 * 149685) by (nonlinear_arith)
        requires
            0 <= dr <= 149685,
    ;
    assert(dg * dg <= 149685 * 149685) by (nonlinear_arith)
        requires
            0 <= dg <= 149685,
    ;
    assert(db * db <= 149685 * 149685) by (nonlinear_arith)
        requires
            0 <= db <= 149685,
    ;
    assert(dr * dr >= 0) by (nonlinear_arith);
    assert(dg * dg >= 0) by (nonlinear_arith);
    assert(db * db >= 0) by (nonlinear_arith);
}

} // verus!
