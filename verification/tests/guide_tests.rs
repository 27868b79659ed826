use palletizer::color::Color;
use palletizer::guide::{ProcessingGuide, ProcessingStep, ProcessingStepTypes};
use palletizer::processors::{
    build_monochromatic_palette, build_themed_palette, Processors,
};

fn color_step(label: &str) -> ProcessingStep {
    ProcessingStep::new(ProcessingStepTypes::Color, label.to_string())
}

#[test]
fn step_validates_hex_input() {
    assert!(ProcessingStepTypes::Color.is_step_valid("ff0000".to_string()));
    assert!(!ProcessingStepTypes::Color.is_step_valid("nope".to_string()));
}

#[test]
fn step_as_hex_returns_only_valid_input() {
    let mut step = color_step("Base Color (HEX)");
    assert_eq!(step.as_hex(), None);
    step.input = "#a1b2c3".to_string();
    assert_eq!(step.as_hex(), Some("#a1b2c3".to_string()));
}

#[test]
fn guide_reads_and_updates_the_current_step() {
    let mut guide = ProcessingGuide::new(vec![color_step("Base Color (HEX)")]);
    assert_eq!(guide.get_current_label(), "Base Color (HEX)".to_string());
    assert_eq!(guide.get_current_input(), "".to_string());
    assert!(!guide.is_current_input_valid());
    guide.update_current_input("ff0000".to_string());
    assert_eq!(guide.get_current_input(), "ff0000".to_string());
    assert!(guide.is_current_input_valid());
}

#[test]
fn single_step_guide_is_ready_from_the_start() {
    let guide = ProcessingGuide::new(vec![color_step("Base Color (HEX)")]);
    assert!(guide.is_ready());
}

#[test]
fn guide_advances_only_on_valid_input() {
    let mut guide = ProcessingGuide::new(vec![
        color_step("Base Color 1 (HEX)"),
        color_step("Base Color 2 (HEX)"),
    ]);
    assert!(!guide.is_ready());
    guide.try_finish_current_step();
    assert_eq!(guide.current_step, 0);
    guide.update_current_input("0f0".to_string());
    guide.try_finish_current_step();
    assert_eq!(guide.current_step, 1);
    assert!(guide.is_ready());
    guide.update_current_input("00f".to_string());
    guide.try_finish_current_step();
    assert_eq!(guide.current_step, 1);
}

#[test]
fn processors_enumerate_in_a_fixed_order() {
    assert_eq!(Processors::number_of_processors(), 16);
    assert_eq!(Processors::get_processor(0), Processors::Monochromatic);
    assert_eq!(Processors::get_processor(5), Processors::Trichromatic);
    assert_eq!(Processors::get_processor(15), Processors::ColorfulIslands);
    assert_eq!(Processors::get_processor(0).name(), "Monochromatic".to_string());
    assert_eq!(Processors::get_processor(14).name(), "European Islands".to_string());
}

#[test]
fn monochromatic_palette_stays_under_its_ceiling() {
    let seed = Color { r: 34, g: 177, b: 76 };
    let palette = build_monochromatic_palette(&seed, 500).unwrap();
    assert!(palette.len() <= 500);
    assert!(!palette.is_empty());
}

#[test]
fn themed_palette_of_a_single_seed_has_no_pair_to_blend() {
    let seeds = vec![Color { r: 255, g: 0, b: 0 }];
    assert_eq!(build_themed_palette(&seeds), vec![]);
}
