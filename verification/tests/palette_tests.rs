use palletizer::color::Color;
use palletizer::condense::{condense_color_pallet, quantize_color, CondenseError};
use palletizer::dedup::{remove_duplicates_ordered, remove_duplicates_unordered};
use palletizer::pallets;
use palletizer::spectrum::{get_1d_spectrum, get_colors_between, get_plane_spectrum};

fn has_no_duplicates(list: &Vec<Color>) -> bool {
    for i in 0..list.len() {
        for j in 0..i {
            if list[i] == list[j] {
                return false;
            }
        }
    }
    true
}

#[test]
fn dedup_keeps_first_occurrence_order() {
    let a = Color { r: 1, g: 2, b: 3 };
    let b = Color { r: 4, g: 5, b: 6 };
    let c = Color { r: 7, g: 8, b: 9 };
    let data = vec![a, b, a, c, b, a];
    assert_eq!(remove_duplicates_ordered(&data), vec![a, b, c]);
    assert_eq!(remove_duplicates_unordered(&data), vec![a, b, c]);
}

#[test]
fn colors_between_starts_and_ends_at_the_inputs() {
    let from = Color { r: 200, g: 30, b: 30 };
    let to = Color { r: 30, g: 200, b: 30 };
    let between = get_colors_between(&from, &to);
    assert_eq!(between[0], from);
    assert_eq!(*between.last().unwrap(), to);
    assert!(has_no_duplicates(&between));
}

#[test]
fn colors_between_black_and_white_walks_every_gray() {
    let black = Color { r: 0, g: 0, b: 0 };
    let white = Color { r: 255, g: 255, b: 255 };
    let between = get_colors_between(&black, &white);
    // 442 steps over a range of 255 skip no 8-bit value
    assert_eq!(between.len(), 256);
    for (i, color) in between.iter().enumerate() {
        assert_eq!(*color, Color { r: i as u8, g: i as u8, b: i as u8 });
    }
}

#[test]
fn line_spectrum_contains_white_seed_and_black() {
    let seed = Color { r: 180, g: 40, b: 90 };
    let spectrum = get_1d_spectrum(&seed);
    assert!(spectrum.contains(&Color { r: 255, g: 255, b: 255 }));
    assert!(spectrum.contains(&Color { r: 0, g: 0, b: 0 }));
    assert!(spectrum.contains(&seed));
    assert!(has_no_duplicates(&spectrum));
}

#[test]
fn quantize_maps_to_bucket_centers() {
    // width 2: 10 -> 11, 12 -> 13; width 51 clamps the top bucket to 255
    assert_eq!(quantize_color(&Color { r: 10, g: 0, b: 12 }, 2), Color { r: 11, g: 1, b: 13 });
    assert_eq!(quantize_color(&Color { r: 255, g: 0, b: 0 }, 51), Color { r: 255, g: 25, b: 25 });
}

#[test]
fn condense_returns_input_deduplicated_when_it_fits() {
    let a = Color { r: 1, g: 1, b: 1 };
    let b = Color { r: 200, g: 200, b: 200 };
    let result = condense_color_pallet(&vec![a, b, a], 2).unwrap();
    assert_eq!(result, vec![a, b]);
}

#[test]
fn condense_quantizes_until_under_the_ceiling() {
    let palette = vec![
        Color { r: 10, g: 0, b: 0 },
        Color { r: 11, g: 0, b: 0 },
        Color { r: 12, g: 0, b: 0 },
    ];
    // one pass at width 2 folds 10 and 11 onto the same bucket center
    let result = condense_color_pallet(&palette, 2).unwrap();
    assert_eq!(result, vec![Color { r: 11, g: 1, b: 1 }, Color { r: 13, g: 1, b: 1 }]);
}

#[test]
fn condense_result_respects_any_ceiling() {
    let seed = Color { r: 250, g: 10, b: 60 };
    let spectrum = get_1d_spectrum(&seed);
    for ceiling in [1000usize, 120, 64] {
        let result = condense_color_pallet(&spectrum, ceiling).unwrap();
        assert!(result.len() <= ceiling);
        assert!(has_no_duplicates(&result));
    }
}

#[test]
fn condense_reports_ceiling_and_size_when_it_cannot_converge() {
    let palette = vec![Color { r: 0, g: 0, b: 0 }, Color { r: 255, g: 255, b: 255 }];
    let err = condense_color_pallet(&palette, 1).unwrap_err();
    assert_eq!(err, CondenseError { ceiling: 1, size_reached: 2 });
}

#[test]
fn plane_spectrum_of_short_lines_blends_them() {
    let line_a = vec![Color { r: 255, g: 0, b: 0 }];
    let line_b = vec![Color { r: 0, g: 0, b: 255 }];
    let plane = get_plane_spectrum(&line_a, &line_b);
    assert!(plane.contains(&Color { r: 255, g: 0, b: 0 }));
    assert!(plane.contains(&Color { r: 0, g: 0, b: 255 }));
    assert!(has_no_duplicates(&plane));
}

#[test]
fn themed_palettes_hold_their_fixed_seed_colors() {
    let volcanic = pallets::volcanic_crater();
    assert_eq!(volcanic.len(), 13);
    assert_eq!(volcanic[0], Color { r: 0, g: 0, b: 0 });
    assert_eq!(volcanic[12], Color { r: 255, g: 215, b: 0 });
    let wheat = pallets::wheat_field();
    assert_eq!(wheat.len(), 10);
    assert_eq!(wheat[0], Color { r: 184, g: 134, b: 11 });
    assert_eq!(pallets::red_rocks().len(), 10);
    assert_eq!(pallets::deepest_africa().len(), 12);
    assert_eq!(pallets::arctic_wilderness().len(), 12);
    assert_eq!(pallets::iceland().len(), 12);
    assert_eq!(pallets::english_oaks().len(), 11);
    assert_eq!(pallets::south_american_jungle().len(), 13);
    assert_eq!(pallets::european_islands().len(), 12);
    assert_eq!(pallets::colorful_islands().len(), 13);
}
