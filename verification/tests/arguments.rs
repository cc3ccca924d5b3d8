use retro_palette::cli::{parse_arguments, parse_pixel_size, Invocation, DEFAULT_PIXEL_SIZE};
use retro_palette::error::{RetroError, UsageError};

fn args(list: &[&str]) -> Vec<String> {
    list.iter().map(|s| s.to_string()).collect()
}

fn run_of(list: &[&str]) -> (String, u32, String) {
    match parse_arguments(&args(list)) {
        Ok(Invocation::Run { image_path, pixel_size, palette_key }) => (image_path, pixel_size, palette_key),
        other => panic!("expected a run, got {:?}", other),
    }
}

#[test]
fn pixel_size_is_read_as_a_decimal_number() {
    assert_eq!(parse_pixel_size("8"), Some(8));
    assert_eq!(parse_pixel_size("0"), Some(0));
    assert_eq!(parse_pixel_size("16"), Some(16));
    assert_eq!(parse_pixel_size("007"), Some(7));
    assert_eq!(parse_pixel_size("1234567890"), Some(1234567890));
}

#[test]
fn pixel_size_may_start_with_a_plus() {
    assert_eq!(parse_pixel_size("+8"), Some(8));
    assert_eq!(parse_pixel_size("+0"), Some(0));
    assert_eq!(parse_pixel_size("+"), None);
    assert_eq!(parse_pixel_size("++8"), None);
    assert_eq!(parse_pixel_size("8+"), None);
}

#[test]
fn pixel_size_must_fit_in_32_bits() {
    assert_eq!(parse_pixel_size("4294967295"), Some(u32::MAX));
    assert_eq!(parse_pixel_size("4294967296"), None);
    assert_eq!(parse_pixel_size("99999999999999999999999999"), None);
    assert_eq!(parse_pixel_size("0000000000000000000000000012"), Some(12));
}

#[test]
fn pixel_size_must_be_digits_only() {
    for text in ["abc", "", " 8", "8 ", "-1", "-0", "8px", "1_000", "1.5", "0x10", "٣", "８"] {
        assert_eq!(parse_pixel_size(text), None, "{:?}", text);
    }
}

#[test]
fn pixel_size_agrees_with_the_standard_parser() {
    for text in ["8", "+8", "abc", "", "+", "-1", "007", "4294967295", "4294967296", " 8", "1e3", "+-1"] {
        assert_eq!(parse_pixel_size(text), text.parse::<u32>().ok(), "{:?}", text);
    }
}

#[test]
fn all_three_arguments_are_taken() {
    let (path, size, key) = run_of(&["prog", "photo.png", "8", "nes"]);
    assert_eq!(path, "photo.png");
    assert_eq!(size, 8);
    assert_eq!(key, "nes");
}

#[test]
fn palette_defaults_to_pico8() {
    let (path, size, key) = run_of(&["prog", "photo.png", "4"]);
    assert_eq!(path, "photo.png");
    assert_eq!(size, 4);
    assert_eq!(key, "pico8");
}

#[test]
fn pixel_size_defaults_to_zero() {
    let (path, size, key) = run_of(&["prog", "photo.png"]);
    assert_eq!(path, "photo.png");
    assert_eq!(size, 0);
    assert_eq!(size, DEFAULT_PIXEL_SIZE);
    assert_eq!(key, "pico8");
}

#[test]
fn unknown_palette_keys_pass_through_unchecked() {
    let (_, _, key) = run_of(&["prog", "photo.png", "8", "nonexistent"]);
    assert_eq!(key, "nonexistent");
}

#[test]
fn help_is_asked_for_by_either_flag() {
    assert!(matches!(parse_arguments(&args(&["prog", "--help"])), Ok(Invocation::Help)));
    assert!(matches!(parse_arguments(&args(&["prog", "-h"])), Ok(Invocation::Help)));
}

#[test]
fn help_in_first_place_wins_over_everything_after_it() {
    assert!(matches!(
        parse_arguments(&args(&["prog", "--help", "a", "b", "c", "d"])),
        Ok(Invocation::Help)
    ));
    assert!(matches!(parse_arguments(&args(&["prog", "-h", "abc"])), Ok(Invocation::Help)));
}

#[test]
fn help_elsewhere_is_an_ordinary_argument() {
    assert!(matches!(
        parse_arguments(&args(&["prog", "photo.png", "--help"])),
        Err(RetroError::Usage(UsageError::PixelSize))
    ));
    let (_, _, key) = run_of(&["prog", "photo.png", "8", "-h"]);
    assert_eq!(key, "-h");
}

#[test]
fn a_missing_image_path_is_a_usage_error() {
    assert!(matches!(parse_arguments(&args(&["prog"])), Err(RetroError::Usage(UsageError::ArgumentCount))));
    assert!(matches!(parse_arguments(&args(&[])), Err(RetroError::Usage(UsageError::ArgumentCount))));
}

#[test]
fn too_many_arguments_are_a_usage_error() {
    assert!(matches!(
        parse_arguments(&args(&["prog", "photo.png", "8", "nes", "extra"])),
        Err(RetroError::Usage(UsageError::ArgumentCount))
    ));
    assert!(matches!(
        parse_arguments(&args(&["prog", "photo.png", "abc", "nes", "extra"])),
        Err(RetroError::Usage(UsageError::ArgumentCount))
    ));
}

#[test]
fn a_malformed_pixel_size_is_a_usage_error() {
    assert!(matches!(
        parse_arguments(&args(&["prog", "photo.png", "abc"])),
        Err(RetroError::Usage(UsageError::PixelSize))
    ));
    assert!(matches!(
        parse_arguments(&args(&["prog", "photo.png", "abc", "pico8"])),
        Err(RetroError::Usage(UsageError::PixelSize))
    ));
    assert!(matches!(
        parse_arguments(&args(&["prog", "photo.png", "-8", "pico8"])),
        Err(RetroError::Usage(UsageError::PixelSize))
    ));
    assert!(matches!(
        parse_arguments(&args(&["prog", "photo.png", "", "pico8"])),
        Err(RetroError::Usage(UsageError::PixelSize))
    ));
}
