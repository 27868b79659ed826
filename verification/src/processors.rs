//! The closed set of recoloring modes and the palette each mode builds:
//! one, two or three user seeds grown into a line, plane or web spectrum
//! and condensed, or a curated themed seed set grown into a web spectrum.

use vstd::prelude::*;
use crate::color::Color;
use crate::condense::{condense_color_pallet, condense_result_spec, CondenseError};
use crate::spectrum::{
    get_1d_spectrum, get_line_spectrums, get_plane_spectrum, get_web_spectrum,
    line_spectrum_spec, plane_spectrum_spec, web_spectrum_spec,
};

verus! {

/// The available recoloring modes.
#[derive(Copy, Clone, Debug, PartialEq, Eq, Structural)]
pub enum Processors {
    Monochromatic,
    AutomaticMonochromatic,
    AutomaticMonochromaticWithAccent,
    Bichromatic,
    BichromaticWithAccent,
    Trichromatic,
    VolcanicCrater,
    RedRocks,
    DeepestAfrica,
    ArcticWilderness,
    Iceland,
    EnglishOaks,
    WheatField,
    SouthAmericanJungle,
    EuropeanIslands,
    ColorfulIslands,
}

/// The mode at a given position of the fixed selection order.
pub open spec fn processor_of_spec(selection: int) -> Processors {
    if selection == 0 {
        Processors::Monochromatic
    } else if selection == 1 {
        Processors::AutomaticMonochromatic
    } else if selection == 2 {
        Processors::AutomaticMonochromaticWithAccent
    } else if selection == 3 {
        Processors::Bichromatic
    } else if selection == 4 {
        Processors::BichromaticWithAccent
    } else if selection == 5 {
        Processors::Trichromatic
    } else if selection == 6 {
        Processors::VolcanicCrater
    } else if selection == 7 {
        Processors::RedRocks
    } else if selection == 8 {
        Processors::DeepestAfrica
    } else if selection == 9 {
        Processors::ArcticWilderness
    } else if selection == 10 {
        Processors::Iceland
    } else if selection == 11 {
        Processors::EnglishOaks
    } else if selection == 12 {
        Processors::WheatField
    } else if selection == 13 {
        Processors::SouthAmericanJungle
    } else if selection == 14 {
        Processors::EuropeanIslands
    } else {
        Processors::ColorfulIslands
    }
}

impl Processors {
    /// The display name of the mode.
    pub fn name(&self) -> (r: String)
        ensures
            r@ == match self {
                Processors::Monochromatic => "Monochromatic"@,
                Processors::AutomaticMonochromatic => "Automatic Monochromatic"@,
                Processors::AutomaticMonochromaticWithAccent => "Automatic Monochromatic with Accent"@,
                Processors::Bichromatic => "Bichromatic"@,
                Processors::BichromaticWithAccent => "Bichromatic with Accent"@,
                Processors::Trichromatic => "Trichromatic"@,
                Processors::VolcanicCrater => "Volcanic Crater"@,
                Processors::RedRocks => "Red Rocks"@,
                Processors::DeepestAfrica => "Deepest Africa"@,
                Processors::ArcticWilderness => "Arctic Wilderness"@,
                Processors::Iceland => "Iceland"@,
                Processors::EnglishOaks => "English Oaks"@,
                Processors::WheatField => "Wheat Field"@,
                Processors::SouthAmericanJungle => "South American Jungle"@,
                Processors::EuropeanIslands => "European Islands"@,
                Processors::ColorfulIslands => "Colorful Islands"@,
            },
    {
        match self {
            Processors::Monochromatic => String::from_str("Monochromatic"),
            Processors::AutomaticMonochromatic => String::from_str("Automatic Monochromatic"),
            Processors::AutomaticMonochromaticWithAccent => String::from_str(
                "Automatic Monochromatic with Accent",
            ),
            Processors::Bichromatic => String::from_str("Bichromatic"),
            Processors::BichromaticWithAccent => String::from_str("Bichromatic with Accent"),
            Processors::Trichromatic => String::from_str("Trichromatic"),
            Processors::VolcanicCrater => String::from_str("Volcanic Crater"),
            Processors::RedRocks => String::from_str("Red Rocks"),
            Processors::DeepestAfrica => String::from_str("Deepest Africa"),
            Processors::ArcticWilderness => String::from_str("Arctic Wilderness"),
            Processors::Iceland => String::from_str("Iceland"),
            Processors::EnglishOaks => String::from_str("English Oaks"),
            Processors::WheatField => String::from_str("Wheat Field"),
            Processors::SouthAmericanJungle => String::from_str("South American Jungle"),
            Processors::EuropeanIslands => String::from_str("European Islands"),
            Processors::ColorfulIslands => String::from_str("Colorful Islands"),
        }
    }

    /// How many modes exist.
    pub fn number_of_processors() -> (r: usize)
        ensures
            r == 16,
    {
        16
    }

    /// The mode at a given position of the fixed selection order.
    pub fn get_processor(selection: usize) -> (r: Processors)
        requires
            selection < 16,
        ensures
            r == processor_of_spec(selection as int),
    {
        match selection {
            0 => Processors::Monochromatic,
            1 => Processors::AutomaticMonochromatic,
            2 => Processors::AutomaticMonochromaticWithAccent,
            3 => Processors::Bichromatic,
            4 => Processors::BichromaticWithAccent,
            5 => Processors::Trichromatic,
            6 => Processors::VolcanicCrater,
            7 => Processors::RedRocks,
            8 => Processors::DeepestAfrica,
            9 => Processors::ArcticWilderness,
            10 => Processors::Iceland,
            11 => Processors::EnglishOaks,
            12 => Processors::WheatField,
            13 => Processors::SouthAmericanJungle,
            14 => Processors::EuropeanIslands,
            _ => Processors::ColorfulIslands,
        }
    }
}

/// Builds the palette of a one-seed mode: the seed's line spectrum,
/// condensed under the ceiling.
pub fn build_monochromatic_palette(seed: &Color, ceiling: usize) -> (r: Result<
    Vec<Color>,
    CondenseError,
>)
    requires
        ceiling >= 1,
    ensures
        condense_result_spec(line_spectrum_spec(*seed), ceiling as int, r),
        r matches Ok(v) ==> v@.len() <= ceiling,
{
    let spectrum = get_1d_spectrum(seed);
    condense_color_pallet(&spectrum, ceiling)
}

/// Builds the palette of a two-seed mode: the plane spectrum between the
/// two seeds' line spectra, condensed under the ceiling.
pub fn build_bichromatic_palette(seed_1: &Color, seed_2: &Color, ceiling: usize) -> (r: Result<
    Vec<Color>,
    CondenseError,
>)
    requires
        ceiling >= 1,
    ensures
        condense_result_spec(
            plane_spectrum_spec(line_spectrum_spec(*seed_1), line_spectrum_spec(*seed_2)),
            ceiling as int,
            r,
        ),
        r matches Ok(v) ==> v@.len() <= ceiling,
{
    let line_1 = get_1d_spectrum(seed_1);
    let line_2 = get_1d_spectrum(seed_2);
    let spectrum = get_plane_spectrum(&line_1, &line_2);
    condense_color_pallet(&spectrum, ceiling)
}

/// Builds the palette of a three-seed mode: the web spectrum over the
/// three seeds' line spectra, condensed under the ceiling.
pub fn build_trichromatic_palette(
    seed_1: &Color,
    seed_2: &Color,
    seed_3: &Color,
    ceiling: usize,
) -> (r: Result<Vec<Color>, CondenseError>)
    requires
        ceiling >= 1,
    ensures
        condense_result_spec(
            web_spectrum_spec(
                seq![
                    line_spectrum_spec(*seed_1),
                    line_spectrum_spec(*seed_2),
                    line_spectrum_spec(*seed_3),
                ],
            ),
            ceiling as int,
            r,
        ),
        r matches Ok(v) ==> v@.len() <= ceiling,
{
    let line_1 = get_1d_spectrum(seed_1);
    let line_2 = get_1d_spectrum(seed_2);
    let line_3 = get_1d_spectrum(seed_3);
    let mut lines: Vec<Vec<Color>> = Vec::with_capacity(3);
    lines.push(line_1);
    lines.push(line_2);
    lines.push(line_3);
    proof {
        assert(lines@.map_values(|v: Vec<Color>| v@) =~= seq![
            line_spectrum_spec(*seed_1),
            line_spectrum_spec(*seed_2),
            line_spectrum_spec(*seed_3),
        ]);
    }
    let spectrum = get_web_spectrum(&lines);
    condense_color_pallet(&spectrum, ceiling)
}

/// Builds the palette of a themed mode: the web spectrum over the line
/// spectra of the curated seed set, uncondensed.
pub fn build_themed_palette(seeds: &Vec<Color>) -> (r: Vec<Color>)
    ensures
        r@ == web_spectrum_spec(seeds@.map_values(|c: Color| line_spectrum_spec(c))),
{
    let lines = get_line_spectrums(seeds);
    proof {
        assert(lines@.map_values(|v: Vec<Color>| v@) =~= seeds@.map_values(
            |c: Color| line_spectrum_spec(c),
        ));
    }
    get_web_spectrum(&lines)
}

} // verus!
