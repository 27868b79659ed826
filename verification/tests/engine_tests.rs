use palletizer::accent::{get_accent_color, grey_of, is_accent_color, Region};
use palletizer::closest::{get_closest_color, get_closest_color_biased};
use palletizer::color::Color;
use palletizer::compute::{
    colors_as_vec_u32, colors_from_indices, colors_from_indices_biased, dispatch_dimensions,
};
use palletizer::processors::build_bichromatic_palette;
use palletizer::raster::{palletize, palletize_evenly, Image, NoProgress, ProgressLog};

fn image_from(width: u32, height: u32, pixels: Vec<Color>) -> Image {
    Image::new(width, height, pixels).unwrap()
}

#[test]
fn image_new_rejects_a_pixel_count_mismatch() {
    assert!(Image::new(2, 2, vec![Color { r: 0, g: 0, b: 0 }; 3]).is_none());
    assert!(Image::new(2, 2, vec![Color { r: 0, g: 0, b: 0 }; 4]).is_some());
}

#[test]
fn closest_color_empty_palette_returns_the_input() {
    let color = Color { r: 9, g: 8, b: 7 };
    assert_eq!(get_closest_color(&vec![], &color), color);
}

#[test]
fn closest_color_picks_the_nearest_entry() {
    let palette = vec![Color { r: 10, g: 0, b: 0 }, Color { r: 0, g: 10, b: 0 }];
    // a red offset is weighted far lighter than a green offset
    assert_eq!(get_closest_color(&palette, &Color { r: 0, g: 0, b: 0 }), palette[0]);
    assert_eq!(get_closest_color(&palette, &Color { r: 10, g: 0, b: 0 }), palette[0]);
}

#[test]
fn closest_color_breaks_ties_by_first_entry() {
    let palette = vec![Color { r: 10, g: 0, b: 0 }, Color { r: 0, g: 0, b: 0 }];
    // (5, 0, 0) sits exactly between both entries
    assert_eq!(get_closest_color(&palette, &Color { r: 5, g: 0, b: 0 }), palette[0]);
}

#[test]
fn biased_search_prefers_the_biased_palette_on_ties() {
    let biased = vec![Color { r: 10, g: 0, b: 0 }];
    let standard = vec![Color { r: 0, g: 0, b: 0 }];
    let pixel = Color { r: 5, g: 0, b: 0 };
    assert_eq!(get_closest_color_biased(&biased, &standard, &pixel), biased[0]);
}

#[test]
fn biased_search_still_yields_to_a_much_closer_standard_color() {
    let biased = vec![Color { r: 100, g: 0, b: 0 }];
    let standard = vec![Color { r: 1, g: 0, b: 0 }];
    let pixel = Color { r: 0, g: 0, b: 0 };
    assert_eq!(get_closest_color_biased(&biased, &standard, &pixel), standard[0]);
}

#[test]
fn biased_search_empty_biased_palette_returns_the_input() {
    let standard = vec![Color { r: 1, g: 2, b: 3 }];
    let pixel = Color { r: 9, g: 9, b: 9 };
    assert_eq!(get_closest_color_biased(&vec![], &standard, &pixel), pixel);
}

#[test]
fn palletize_preserves_dimensions_and_pixel_count() {
    let pixels = vec![
        Color { r: 10, g: 10, b: 10 },
        Color { r: 250, g: 250, b: 250 },
        Color { r: 200, g: 30, b: 30 },
        Color { r: 30, g: 200, b: 30 },
        Color { r: 0, g: 0, b: 0 },
        Color { r: 255, g: 255, b: 255 },
    ];
    let image = image_from(3, 2, pixels);
    let palette = vec![Color { r: 0, g: 0, b: 0 }, Color { r: 255, g: 255, b: 255 }];
    let out = palletize(&image, &palette);
    assert_eq!(out.width, 3);
    assert_eq!(out.height, 2);
    assert_eq!(out.pixels.len(), 6);
}

#[test]
fn palletize_with_empty_palette_is_identity() {
    let pixels = vec![Color { r: 1, g: 2, b: 3 }, Color { r: 4, g: 5, b: 6 }];
    let image = image_from(2, 1, pixels.clone());
    let out = palletize(&image, &vec![]);
    assert_eq!(out.pixels, pixels);
}

#[test]
fn palletize_twice_yields_bit_identical_output() {
    let pixels = vec![
        Color { r: 13, g: 77, b: 200 },
        Color { r: 130, g: 7, b: 20 },
        Color { r: 255, g: 0, b: 128 },
        Color { r: 1, g: 254, b: 66 },
    ];
    let image = image_from(2, 2, pixels);
    let palette = vec![
        Color { r: 20, g: 70, b: 190 },
        Color { r: 140, g: 10, b: 10 },
        Color { r: 250, g: 5, b: 120 },
    ];
    let mut sink = NoProgress;
    let first = palletize_evenly(&image, &palette, &mut sink);
    let second = palletize_evenly(&image, &palette, &mut sink);
    assert_eq!(first.pixels, second.pixels);
}

#[test]
fn palletize_reports_progress_from_zero() {
    let image = image_from(2, 2, vec![Color { r: 5, g: 5, b: 5 }; 4]);
    let palette = vec![Color { r: 0, g: 0, b: 0 }];
    let mut log = ProgressLog::new();
    let _ = palletize_evenly(&image, &palette, &mut log);
    assert_eq!(log.reports, vec![0]);
}

#[test]
fn grey_projection_uses_the_luma_weights() {
    // (299 * 200 + 587 * 30 + 114 * 30) / 1000 = 80
    assert_eq!(grey_of(&Color { r: 200, g: 30, b: 30 }), Color { r: 80, g: 80, b: 80 });
    assert_eq!(grey_of(&Color { r: 77, g: 77, b: 77 }), Color { r: 77, g: 77, b: 77 });
}

#[test]
fn accent_falls_back_to_the_average_on_an_all_gray_image() {
    let image = image_from(2, 2, vec![Color { r: 100, g: 100, b: 100 }; 4]);
    assert!(!is_accent_color(&Color { r: 100, g: 100, b: 100 }));
    assert_eq!(get_accent_color(&image), Color { r: 100, g: 100, b: 100 });
}

#[test]
fn accent_finds_the_prominent_colorful_region() {
    let gray = Color { r: 100, g: 100, b: 100 };
    let red = Color { r: 200, g: 30, b: 30 };
    let image = image_from(4, 1, vec![gray, red, gray, gray]);
    assert!(is_accent_color(&red));
    assert_eq!(get_accent_color(&image), red);
}

#[test]
fn region_tracks_its_running_average() {
    let mut region = Region::new();
    region.add_color(Color { r: 10, g: 0, b: 0 });
    region.add_color(Color { r: 20, g: 0, b: 0 });
    assert_eq!(region.average_color, Color { r: 15, g: 0, b: 0 });
    region.add_colors(&vec![Color { r: 30, g: 0, b: 0 }]);
    assert_eq!(region.average_color, Color { r: 20, g: 0, b: 0 });
    assert_eq!(region.colors.len(), 3);
}

#[test]
fn end_to_end_two_seed_palette_covers_a_small_image() {
    let pixels = vec![
        Color { r: 10, g: 10, b: 10 },
        Color { r: 250, g: 250, b: 250 },
        Color { r: 200, g: 30, b: 30 },
        Color { r: 30, g: 200, b: 30 },
    ];
    let image = image_from(2, 2, pixels);
    let red = Color { r: 255, g: 0, b: 0 };
    let blue = Color { r: 0, g: 0, b: 255 };
    let palette = build_bichromatic_palette(&red, &blue, 1 << 20).unwrap();
    let out = palletize(&image, &palette);
    assert_eq!(out.width, 2);
    assert_eq!(out.height, 2);
    assert_eq!(out.pixels.len(), 4);
    for pixel in &out.pixels {
        assert!(palette.contains(pixel));
    }
}

#[test]
fn packing_puts_red_in_the_low_byte() {
    let colors = vec![Color { r: 1, g: 2, b: 3 }, Color { r: 255, g: 0, b: 0 }];
    assert_eq!(colors_as_vec_u32(&colors), vec![1 + 256 * 2 + 65536 * 3, 255]);
}

#[test]
fn dispatch_covers_the_image_rounding_up() {
    assert_eq!(dispatch_dimensions(16, 9), (2, 2));
    assert_eq!(dispatch_dimensions(1, 1), (1, 1));
    assert_eq!(dispatch_dimensions(0, 8), (0, 1));
}

#[test]
fn index_translation_maps_back_into_the_palette() {
    let palette = vec![Color { r: 1, g: 0, b: 0 }, Color { r: 0, g: 1, b: 0 }];
    assert_eq!(
        colors_from_indices(&vec![1, 0, 1], &palette),
        Some(vec![palette[1], palette[0], palette[1]])
    );
    assert_eq!(colors_from_indices(&vec![0, 2], &palette), None);
}

#[test]
fn biased_index_translation_spans_both_palettes() {
    let biased = vec![Color { r: 9, g: 0, b: 0 }];
    let standard = vec![Color { r: 0, g: 9, b: 0 }, Color { r: 0, g: 0, b: 9 }];
    assert_eq!(
        colors_from_indices_biased(&vec![0, 1, 2], &biased, &standard),
        Some(vec![biased[0], standard[0], standard[1]])
    );
    assert_eq!(colors_from_indices_biased(&vec![3], &biased, &standard), None);
}
