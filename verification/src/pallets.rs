//! The curated themed palettes: fixed, named sets of seed colors from
//! which web spectra are grown. These are plain data tables; nothing is
//! computed here.

use vstd::prelude::*;
use crate::color::Color;

verus! {

/// The seed colors of the volcanic crater palette.
pub open spec fn volcanic_crater_spec() -> Seq<Color> {
    seq![
        (Color { r: 0, g: 0, b: 0 }),
        (Color { r: 28, g: 28, b: 28 }),
        (Color { r: 47, g: 79, b: 79 }),
        (Color { r: 105, g: 105, b: 105 }),
        (Color { r: 139, g: 0, b: 0 }),
        (Color { r: 165, g: 42, b: 42 }),
        (Color { r: 178, g: 34, b: 34 }),
        (Color { r: 220, g: 20, b: 60 }),
        (Color { r: 255, g: 69, b: 0 }),
        (Color { r: 255, g: 99, b: 71 }),
        (Color { r: 255, g: 140, b: 0 }),
        (Color { r: 255, g: 165, b: 0 }),
        (Color { r: 255, g: 215, b: 0 }),
    ]
}

/// Returns the seed colors of the volcanic crater palette.
pub fn volcanic_crater() -> (r: Vec<Color>)
    ensures
        r@ == volcanic_crater_spec(),
{
    let v: Vec<Color> = vec![
        Color { r: 0, g: 0, b: 0 },
        Color { r: 28, g: 28, b: 28 },
        Color { r: 47, g: 79, b: 79 },
        Color { r: 105, g: 105, b: 105 },
        Color { r: 139, g: 0, b: 0 },
        Color { r: 165, g: 42, b: 42 },
        Color { r: 178, g: 34, b: 34 },
        Color { r: 220, g: 20, b: 60 },
        Color { r: 255, g: 69, b: 0 },
        Color { r: 255, g: 99, b: 71 },
        Color { r: 255, g: 140, b: 0 },
        Color { r: 255, g: 165, b: 0 },
        Color { r: 255, g: 215, b: 0 },
    ];
    proof {
        assert(v@ =~= volcanic_crater_spec());
    }
    v
}

/// The seed colors of the red rocks palette.
pub open spec fn red_rocks_spec() -> Seq<Color> {
    seq![
        (Color { r: 139, g: 69, b: 19 }),
        (Color { r: 160, g: 82, b: 45 }),
        (Color { r: 205, g: 133, b: 63 }),
        (Color { r: 210, g: 105, b: 30 }),
        (Color { r: 184, g: 134, b: 11 }),
        (Color { r: 218, g: 165, b: 32 }),
        (Color { r: 233, g: 150, b: 122 }),
        (Color { r: 244, g: 164, b: 96 }),
        (Color { r: 188, g: 143, b: 143 }),
        (Color { r: 193, g: 154, b: 107 }),
    ]
}

/// Returns the seed colors of the red rocks palette.
pub fn red_rocks() -> (r: Vec<Color>)
    ensures
        r@ == red_rocks_spec(),
{
    let v: Vec<Color> = vec![
        Color { r: 139, g: 69, b: 19 },
        Color { r: 160, g: 82, b: 45 },
        Color { r: 205, g: 133, b: 63 },
        Color { r: 210, g: 105, b: 30 },
        Color { r: 184, g: 134, b: 11 },
        Color { r: 218, g: 165, b: 32 },
        Color { r: 233, g: 150, b: 122 },
        Color { r: 244, g: 164, b: 96 },
        Color { r: 188, g: 143, b: 143 },
        Color { r: 193, g: 154, b: 107 },
    ];
    proof {
        assert(v@ =~= red_rocks_spec());
    }
    v
}

/// The seed colors of the deepest africa palette.
pub open spec fn deepest_africa_spec() -> Seq<Color> {
    seq![
        (Color { r: 139, g: 69, b: 19 }),
        (Color { r: 160, g: 82, b: 45 }),
        (Color { r: 205, g: 133, b: 63 }),
        (Color { r: 210, g: 105, b: 30 }),
        (Color { r: 222, g: 184, b: 135 }),
        (Color { r: 244, g: 164, b: 96 }),
        (Color { r: 85, g: 107, b: 47 }),
        (Color { r: 107, g: 142, b: 35 }),
        (Color { r: 139, g: 115, b: 85 }),
        (Color { r: 184, g: 134, b: 11 }),
        (Color { r: 255, g: 99, b: 71 }),
        (Color { r: 255, g: 140, b: 0 }),
    ]
}

/// Returns the seed colors of the deepest africa palette.
pub fn deepest_africa() -> (r: Vec<Color>)
    ensures
        r@ == deepest_africa_spec(),
{
    let v: Vec<Color> = vec![
        Color { r: 139, g: 69, b: 19 },
        Color { r: 160, g: 82, b: 45 },
        Color { r: 205, g: 133, b: 63 },
        Color { r: 210, g: 105, b: 30 },
        Color { r: 222, g: 184, b: 135 },
        Color { r: 244, g: 164, b: 96 },
        Color { r: 85, g: 107, b: 47 },
        Color { r: 107, g: 142, b: 35 },
        Color { r: 139, g: 115, b: 85 },
        Color { r: 184, g: 134, b: 11 },
        Color { r: 255, g: 99, b: 71 },
        Color { r: 255, g: 140, b: 0 },
    ];
    proof {
        assert(v@ =~= deepest_africa_spec());
    }
    v
}

/// The seed colors of the arctic wilderness palette.
pub open spec fn arctic_wilderness_spec() -> Seq<Color> {
    seq![
        (Color { r: 224, g: 255, b: 255 }),
        (Color { r: 240, g: 248, b: 255 }),
        (Color { r: 240, g: 255, b: 255 }),
        (Color { r: 175, g: 238, b: 238 }),
        (Color { r: 176, g: 224, b: 230 }),
        (Color { r: 173, g: 216, b: 230 }),
        (Color { r: 135, g: 206, b: 235 }),
        (Color { r: 135, g: 206, b: 250 }),
        (Color { r: 70, g: 130, b: 180 }),
        (Color { r: 95, g: 158, b: 160 }),
        (Color { r: 112, g: 128, b: 144 }),
        (Color { r: 47, g: 79, b: 79 }),
    ]
}

/// Returns the seed colors of the arctic wilderness palette.
pub fn arctic_wilderness() -> (r: Vec<Color>)
    ensures
        r@ == arctic_wilderness_spec(),
{
    let v: Vec<Color> = vec![
        Color { r: 224, g: 255, b: 255 },
        Color { r: 240, g: 248, b: 255 },
        Color { r: 240, g: 255, b: 255 },
        Color { r: 175, g: 238, b: 238 },
        Color { r: 176, g: 224, b: 230 },
        Color { r: 173, g: 216, b: 230 },
        Color { r: 135, g: 206, b: 235 },
        Color { r: 135, g: 206, b: 250 },
        Color { r: 70, g: 130, b: 180 },
        Color { r: 95, g: 158, b: 160 },
        Color { r: 112, g: 128, b: 144 },
        Color { r: 47, g: 79, b: 79 },
    ];
    proof {
        assert(v@ =~= arctic_wilderness_spec());
    }
    v
}

/// The seed colors of the iceland palette.
pub open spec fn iceland_spec() -> Seq<Color> {
    seq![
        (Color { r: 47, g: 79, b: 79 }),
        (Color { r: 85, g: 107, b: 47 }),
        (Color { r: 112, g: 128, b: 144 }),
        (Color { r: 119, g: 136, b: 153 }),
        (Color { r: 143, g: 188, b: 143 }),
        (Color { r: 159, g: 182, b: 205 }),
        (Color { r: 176, g: 196, b: 222 }),
        (Color { r: 192, g: 192, b: 192 }),
        (Color { r: 210, g: 180, b: 140 }),
        (Color { r: 224, g: 238, b: 238 }),
        (Color { r: 240, g: 248, b: 255 }),
        (Color { r: 67, g: 67, b: 67 }),
    ]
}

/// Returns the seed colors of the iceland palette.
pub fn iceland() -> (r: Vec<Color>)
    ensures
        r@ == iceland_spec(),
{
    let v: Vec<Color> = vec![
        Color { r: 47, g: 79, b: 79 },
        Color { r: 85, g: 107, b: 47 },
        Color { r: 112, g: 128, b: 144 },
        Color { r: 119, g: 136, b: 153 },
        Color { r: 143, g: 188, b: 143 },
        Color { r: 159, g: 182, b: 205 },
        Color { r: 176, g: 196, b: 222 },
        Color { r: 192, g: 192, b: 192 },
        Color { r: 210, g: 180, b: 140 },
        Color { r: 224, g: 238, b: 238 },
        Color { r: 240, g: 248, b: 255 },
        Color { r: 67, g: 67, b: 67 },
    ];
    proof {
        assert(v@ =~= iceland_spec());
    }
    v
}

/// The seed colors of the english oaks palette.
pub open spec fn english_oaks_spec() -> Seq<Color> {
    seq![
        (Color { r: 47, g: 79, b: 47 }),
        (Color { r: 59, g: 83, b: 35 }),
        (Color { r: 85, g: 107, b: 47 }),
        (Color { r: 107, g: 142, b: 35 }),
        (Color { r: 128, g: 128, b: 0 }),
        (Color { r: 139, g: 69, b: 19 }),
        (Color { r: 143, g: 188, b: 143 }),
        (Color { r: 160, g: 82, b: 45 }),
        (Color { r: 189, g: 183, b: 107 }),
        (Color { r: 210, g: 105, b: 30 }),
        (Color { r: 222, g: 184, b: 135 }),
    ]
}

/// Returns the seed colors of the english oaks palette.
pub fn english_oaks() -> (r: Vec<Color>)
    ensures
        r@ == english_oaks_spec(),
{
    let v: Vec<Color> = vec![
        Color { r: 47, g: 79, b: 47 },
        Color { r: 59, g: 83, b: 35 },
        Color { r: 85, g: 107, b: 47 },
        Color { r: 107, g: 142, b: 35 },
        Color { r: 128, g: 128, b: 0 },
        Color { r: 139, g: 69, b: 19 },
        Color { r: 143, g: 188, b: 143 },
        Color { r: 160, g: 82, b: 45 },
        Color { r: 189, g: 183, b: 107 },
        Color { r: 210, g: 105, b: 30 },
        Color { r: 222, g: 184, b: 135 },
    ];
    proof {
        assert(v@ =~= english_oaks_spec());
    }
    v
}

/// The seed colors of the wheat field palette.
pub open spec fn wheat_field_spec() -> Seq<Color> {
    seq![
        (Color { r: 184, g: 134, b: 11 }),
        (Color { r: 218, g: 165, b: 32 }),
        (Color { r: 210, g: 180, b: 140 }),
        (Color { r: 222, g: 184, b: 135 }),
        (Color { r: 240, g: 230, b: 140 }),
        (Color { r: 245, g: 222, b: 179 }),
        (Color { r: 255, g: 228, b: 181 }),
        (Color { r: 255, g: 239, b: 213 }),
        (Color { r: 255, g: 248, b: 220 }),
        (Color { r: 255, g: 250, b: 205 }),
    ]
}

/// Returns the seed colors of the wheat field palette.
pub fn wheat_field() -> (r: Vec<Color>)
    ensures
        r@ == wheat_field_spec(),
{
    let v: Vec<Color> = vec![
        Color { r: 184, g: 134, b: 11 },
        Color { r: 218, g: 165, b: 32 },
        Color { r: 210, g: 180, b: 140 },
        Color { r: 222, g: 184, b: 135 },
        Color { r: 240, g: 230, b: 140 },
        Color { r: 245, g: 222, b: 179 },
        Color { r: 255, g: 228, b: 181 },
        Color { r: 255, g: 239, b: 213 },
        Color { r: 255, g: 248, b: 220 },
        Color { r: 255, g: 250, b: 205 },
    ];
    proof {
        assert(v@ =~= wheat_field_spec());
    }
    v
}

/// The seed colors of the south american jungle palette.
pub open spec fn south_american_jungle_spec() -> Seq<Color> {
    seq![
        (Color { r: 0, g: 100, b: 0 }),
        (Color { r: 34, g: 139, b: 34 }),
        (Color { r: 46, g: 139, b: 87 }),
        (Color { r: 60, g: 179, b: 113 }),
        (Color { r: 85, g: 107, b: 47 }),
        (Color { r: 107, g: 142, b: 35 }),
        (Color { r: 128, g: 128, b: 0 }),
        (Color { r: 139, g: 69, b: 19 }),
        (Color { r: 154, g: 205, b: 50 }),
        (Color { r: 173, g: 255, b: 47 }),
        (Color { r: 255, g: 69, b: 0 }),
        (Color { r: 255, g: 215, b: 0 }),
        (Color { r: 28, g: 28, b: 28 }),
    ]
}

/// Returns the seed colors of the south american jungle palette.
pub fn south_american_jungle() -> (r: Vec<Color>)
    ensures
        r@ == south_american_jungle_spec(),
{
    let v: Vec<Color> = vec![
        Color { r: 0, g: 100, b: 0 },
        Color { r: 34, g: 139, b: 34 },
        Color { r: 46, g: 139, b: 87 },
        Color { r: 60, g: 179, b: 113 },
        Color { r: 85, g: 107, b: 47 },
        Color { r: 107, g: 142, b: 35 },
        Color { r: 128, g: 128, b: 0 },
        Color { r: 139, g: 69, b: 19 },
        Color { r: 154, g: 205, b: 50 },
        Color { r: 173, g: 255, b: 47 },
        Color { r: 255, g: 69, b: 0 },
        Color { r: 255, g: 215, b: 0 },
        Color { r: 28, g: 28, b: 28 },
    ];
    proof {
        assert(v@ =~= south_american_jungle_spec());
    }
    v
}

/// The seed colors of the european islands palette.
pub open spec fn european_islands_spec() -> Seq<Color> {
    seq![
        (Color { r: 0, g: 206, b: 209 }),
        (Color { r: 32, g: 178, b: 170 }),
        (Color { r: 60, g: 179, b: 113 }),
        (Color { r: 70, g: 130, b: 180 }),
        (Color { r: 102, g: 205, b: 170 }),
        (Color { r: 112, g: 128, b: 144 }),
        (Color { r: 135, g: 206, b: 235 }),
        (Color { r: 143, g: 188, b: 143 }),
        (Color { r: 176, g: 196, b: 222 }),
        (Color { r: 210, g: 180, b: 140 }),
        (Color { r: 222, g: 184, b: 135 }),
        (Color { r: 245, g: 245, b: 220 }),
    ]
}

/// Returns the seed colors of the european islands palette.
pub fn european_islands() -> (r: Vec<Color>)
    ensures
        r@ == european_islands_spec(),
{
    let v: Vec<Color> = vec![
        Color { r: 0, g: 206, b: 209 },
        Color { r: 32, g: 178, b: 170 },
        Color { r: 60, g: 179, b: 113 },
        Color { r: 70, g: 130, b: 180 },
        Color { r: 102, g: 205, b: 170 },
        Color { r: 112, g: 128, b: 144 },
        Color { r: 135, g: 206, b: 235 },
        Color { r: 143, g: 188, b: 143 },
        Color { r: 176, g: 196, b: 222 },
        Color { r: 210, g: 180, b: 140 },
        Color { r: 222, g: 184, b: 135 },
        Color { r: 245, g: 245, b: 220 },
    ];
    proof {
        assert(v@ =~= european_islands_spec());
    }
    v
}

/// The seed colors of the colorful islands palette.
pub open spec fn colorful_islands_spec() -> Seq<Color> {
    seq![
        (Color { r: 0, g: 100, b: 0 }),
        (Color { r: 0, g: 139, b: 139 }),
        (Color { r: 0, g: 206, b: 209 }),
        (Color { r: 30, g: 144, b: 255 }),
        (Color { r: 32, g: 178, b: 170 }),
        (Color { r: 34, g: 139, b: 34 }),
        (Color { r: 64, g: 224, b: 208 }),
        (Color { r: 72, g: 209, b: 204 }),
        (Color { r: 255, g: 215, b: 0 }),
        (Color { r: 245, g: 222, b: 179 }),
        (Color { r: 250, g: 250, b: 210 }),
        (Color { r: 255, g: 99, b: 71 }),
        (Color { r: 255, g: 127, b: 80 }),
    ]
}

/// Returns the seed colors of the colorful islands palette.
pub fn colorful_islands() -> (r: Vec<Color>)
    ensures
        r@ == colorful_islands_spec(),
{
    let v: Vec<Color> = vec![
        Color { r: 0, g: 100, b: 0 },
        Color { r: 0, g: 139, b: 139 },
        Color { r: 0, g: 206, b: 209 },
        Color { r: 30, g: 144, b: 255 },
        Color { r: 32, g: 178, b: 170 },
        Color { r: 34, g: 139, b: 34 },
        Color { r: 64, g: 224, b: 208 },
        Color { r: 72, g: 209, b: 204 },
        Color { r: 255, g: 215, b: 0 },
        Color { r: 245, g: 222, b: 179 },
        Color { r: 250, g: 250, b: 210 },
        Color { r: 255, g: 99, b: 71 },
        Color { r: 255, g: 127, b: 80 },
    ];
    proof {
        assert(v@ =~= colorful_islands_spec());
    }
    v
}

} // verus!
