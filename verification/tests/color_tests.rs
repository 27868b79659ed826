use palletizer::color::{
    as_rgb, get_average_color_from_pixels, get_distance_squared, is_hex, Color,
};

#[test]
fn hex_accepts_the_three_valid_lengths() {
    assert!(is_hex(&"fff".to_string()));
    assert!(is_hex(&"ffffff".to_string()));
    assert!(is_hex(&"ffffffff".to_string()));
}

#[test]
fn hex_rejects_wrong_lengths_and_digits() {
    assert!(!is_hex(&"ff".to_string()));
    assert!(!is_hex(&"gggggg".to_string()));
    assert!(!is_hex(&"#12".to_string()));
}

#[test]
fn hex_ignores_a_leading_hash() {
    assert!(is_hex(&"#fff".to_string()));
    assert!(is_hex(&"#a1b2c3".to_string()));
    assert!(!is_hex(&"#".to_string()));
}

#[test]
fn hex_trims_at_most_one_leading_hash() {
    assert!(!is_hex(&"##fff".to_string()));
    assert!(!is_hex(&"#fff#".to_string()));
}

#[test]
fn hex_accepts_mixed_case_digits() {
    assert!(is_hex(&"AbCdEf".to_string()));
    assert!(is_hex(&"09afAF".to_string()));
}

#[test]
fn parse_round_trip_six_digits() {
    assert_eq!(as_rgb(&"#ff0000".to_string()), Some(Color { r: 255, g: 0, b: 0 }));
    assert_eq!(as_rgb(&"00ff00".to_string()), Some(Color { r: 0, g: 255, b: 0 }));
}

#[test]
fn parse_round_trip_three_digits_doubles_nibbles() {
    assert_eq!(as_rgb(&"f00".to_string()), Some(Color { r: 255, g: 0, b: 0 }));
    assert_eq!(as_rgb(&"#1a9".to_string()), Some(Color { r: 17, g: 170, b: 153 }));
}

#[test]
fn parse_eight_digits_drops_alpha() {
    assert_eq!(as_rgb(&"12345678".to_string()), Some(Color { r: 18, g: 52, b: 86 }));
}

#[test]
fn parse_rejects_invalid_codes() {
    assert_eq!(as_rgb(&"ff".to_string()), None);
    assert_eq!(as_rgb(&"gggggg".to_string()), None);
    assert_eq!(as_rgb(&"".to_string()), None);
}

#[test]
fn distance_is_symmetric_and_zero_on_equal() {
    let a = Color { r: 12, g: 200, b: 7 };
    let b = Color { r: 250, g: 3, b: 99 };
    assert_eq!(get_distance_squared(&a, &b), get_distance_squared(&b, &a));
    assert_eq!(get_distance_squared(&a, &a), 0);
}

#[test]
fn distance_exact_value_on_pure_red() {
    // only the red channel differs by 255: (299 * 255)^2 = 76245^2
    let red = Color { r: 255, g: 0, b: 0 };
    let black = Color { r: 0, g: 0, b: 0 };
    assert_eq!(get_distance_squared(&red, &black), 76245u64 * 76245u64);
}

#[test]
fn average_rounds_to_nearest() {
    let pixels = vec![Color { r: 0, g: 0, b: 0 }, Color { r: 255, g: 255, b: 255 }];
    assert_eq!(get_average_color_from_pixels(&pixels), Color { r: 128, g: 128, b: 128 });
    let pixels = vec![Color { r: 1, g: 1, b: 1 }, Color { r: 2, g: 2, b: 2 }];
    // a mean of 1.5 rounds up to 2
    assert_eq!(get_average_color_from_pixels(&pixels), Color { r: 2, g: 2, b: 2 });
}

#[test]
fn average_of_single_color_is_itself() {
    let pixels = vec![Color { r: 42, g: 17, b: 230 }];
    assert_eq!(get_average_color_from_pixels(&pixels), Color { r: 42, g: 17, b: 230 });
}

#[test]
fn average_rounds_halves_up() {
    let pixels = vec![Color { r: 2, g: 0, b: 0 }, Color { r: 3, g: 0, b: 0 }];
    assert_eq!(get_average_color_from_pixels(&pixels), Color { r: 3, g: 0, b: 0 });
}
