use retro_palette::catalog::{get_default_palettes, get_palette, get_palette_keys, palette_exists};
use retro_palette::color::Color;
use retro_palette::palette::Palette;
use retro_palette::registry::PaletteRegistry;

const KEYS: [&str; 10] = [
    "grayscale4",
    "grayscale8",
    "gameboy",
    "pico8",
    "commodore",
    "nes",
    "candy",
    "retro_warm",
    "ocean",
    "sunset",
];

fn triples(palette: &Palette) -> Vec<[u8; 3]> {
    palette.colors().iter().map(|c| [c.r, c.g, c.b]).collect()
}

#[test]
fn palette_new_keeps_name_and_order() {
    let colors = vec![Color::new(3, 2, 1), Color::new(1, 2, 3)];
    let palette = Palette::new(String::from("Two"), colors.clone()).expect("two colours");
    assert_eq!(palette.name(), "Two");
    assert_eq!(palette.colors(), colors.as_slice());
    assert_eq!(palette.len(), 2);
    assert!(!palette.is_empty());
}

#[test]
fn palette_new_rejects_an_empty_list() {
    assert!(Palette::new(String::from("Nothing"), Vec::new()).is_none());
}

#[test]
fn get_color_is_bounded_by_the_length() {
    let palette = Palette::new(
        String::from("Two"),
        vec![Color::new(3, 2, 1), Color::new(1, 2, 3)],
    )
    .expect("two colours");
    assert_eq!(palette.get_color(0), Some(&Color::new(3, 2, 1)));
    assert_eq!(palette.get_color(1), Some(&Color::new(1, 2, 3)));
    assert_eq!(palette.get_color(2), None);
    assert_eq!(palette.get_color(usize::MAX), None);
}

#[test]
fn palette_clone_is_equal_and_independent() {
    let palette = get_palette("gameboy").expect("gameboy is predefined");
    let copy = palette.clone();
    drop(palette);
    assert_eq!(copy.name(), "Game Boy Green");
    assert_eq!(triples(&copy), vec![[15, 56, 15], [48, 98, 48], [139, 172, 15], [155, 188, 15]]);
}

#[test]
fn every_predefined_key_gives_a_non_empty_palette() {
    for key in KEYS {
        let palette = get_palette(key).expect("a predefined palette");
        assert!(!palette.is_empty(), "{}", key);
        assert!(palette.len() >= 4, "{}", key);
        assert!(palette.get_color(0).is_some(), "{}", key);
    }
}

#[test]
fn predefined_palettes_have_their_names_and_sizes() {
    let expected: [(&str, &str, usize); 10] = [
        ("grayscale4", "4-Color Grayscale", 4),
        ("grayscale8", "8-Color Grayscale", 8),
        ("gameboy", "Game Boy Green", 4),
        ("pico8", "PICO-8", 16),
        ("commodore", "Commodore VIC-20", 16),
        ("nes", "NES NTSC", 16),
        ("candy", "Sweet Candy", 8),
        ("retro_warm", "Retro Warm", 8),
        ("ocean", "Ocean Blue", 8),
        ("sunset", "Sunset Orange", 8),
    ];
    for (key, name, size) in expected {
        let palette = get_palette(key).expect("a predefined palette");
        assert_eq!(palette.name(), name);
        assert_eq!(palette.len(), size);
        assert_eq!(palette.colors().len(), size);
    }
}

#[test]
fn pico8_has_sixteen_colours_from_black_to_peach() {
    let pico8 = get_palette("pico8").expect("pico8 is predefined");
    assert_eq!(pico8.len(), 16);
    assert_eq!(pico8.get_color(0), Some(&Color::new(0, 0, 0)));
    assert_eq!(pico8.get_color(15), Some(&Color::new(255, 204, 170)));
    assert_eq!(pico8.get_color(16), None);
}

#[test]
fn pico8_has_its_fixed_colours() {
    let pico8 = get_palette("pico8").expect("pico8 is predefined");
    assert_eq!(
        triples(&pico8),
        vec![
            [0, 0, 0],
            [29, 43, 83],
            [126, 37, 83],
            [0, 135, 81],
            [171, 82, 54],
            [95, 87, 79],
            [194, 195, 199],
            [255, 241, 232],
            [255, 0, 77],
            [255, 163, 0],
            [255, 236, 39],
            [0, 228, 54],
            [41, 173, 255],
            [131, 118, 156],
            [255, 119, 168],
            [255, 204, 170],
        ]
    );
}

#[test]
fn greys_and_gameboy_have_their_fixed_colours() {
    assert_eq!(
        triples(&get_palette("grayscale4").expect("predefined")),
        vec![[0, 0, 0], [85, 85, 85], [170, 170, 170], [255, 255, 255]]
    );
    assert_eq!(
        triples(&get_palette("grayscale8").expect("predefined")),
        vec![
            [0, 0, 0],
            [36, 36, 36],
            [73, 73, 73],
            [109, 109, 109],
            [146, 146, 146],
            [182, 182, 182],
            [219, 219, 219],
            [255, 255, 255],
        ]
    );
    assert_eq!(
        triples(&get_palette("gameboy").expect("predefined")),
        vec![[15, 56, 15], [48, 98, 48], [139, 172, 15], [155, 188, 15]]
    );
}

#[test]
fn commodore_and_nes_have_their_fixed_colours() {
    assert_eq!(
        triples(&get_palette("commodore").expect("predefined")),
        vec![
            [0, 0, 0],
            [255, 255, 255],
            [120, 0, 0],
            [0, 255, 204],
            [204, 51, 204],
            [0, 204, 0],
            [0, 0, 204],
            [255, 255, 0],
            [255, 153, 0],
            [255, 204, 153],
            [255, 153, 153],
            [153, 255, 255],
            [255, 153, 255],
            [153, 255, 153],
            [153, 153, 255],
            [204, 204, 204],
        ]
    );
    assert_eq!(
        triples(&get_palette("nes").expect("predefined")),
        vec![
            [0, 0, 0],
            [128, 128, 128],
            [255, 255, 255],
            [204, 0, 0],
            [0, 204, 0],
            [0, 0, 204],
            [255, 255, 0],
            [255, 0, 255],
            [0, 255, 255],
            [255, 128, 0],
            [128, 0, 128],
            [128, 128, 0],
            [0, 128, 128],
            [128, 0, 0],
            [0, 128, 0],
            [0, 0, 128],
        ]
    );
}

#[test]
fn the_eight_colour_themes_have_their_fixed_colours() {
    assert_eq!(
        triples(&get_palette("candy").expect("predefined")),
        vec![
            [255, 182, 193],
            [255, 218, 185],
            [255, 245, 186],
            [186, 245, 186],
            [186, 218, 255],
            [218, 186, 255],
            [255, 186, 235],
            [245, 245, 245],
        ]
    );
    assert_eq!(
        triples(&get_palette("retro_warm").expect("predefined")),
        vec![
            [51, 25, 0],
            [153, 77, 26],
            [230, 128, 51],
            [255, 204, 102],
            [255, 230, 179],
            [204, 102, 51],
            [128, 51, 26],
            [77, 38, 13],
        ]
    );
    assert_eq!(
        triples(&get_palette("ocean").expect("predefined")),
        vec![
            [0, 26, 51],
            [0, 51, 102],
            [26, 102, 153],
            [51, 153, 204],
            [102, 204, 255],
            [179, 230, 255],
            [230, 242, 255],
            [255, 255, 255],
        ]
    );
    assert_eq!(
        triples(&get_palette("sunset").expect("predefined")),
        vec![
            [26, 0, 26],
            [77, 26, 51],
            [153, 51, 26],
            [230, 77, 26],
            [255, 128, 26],
            [255, 179, 77],
            [255, 230, 153],
            [255, 255, 230],
        ]
    );
}

#[test]
fn unknown_key_is_not_found() {
    assert!(get_palette("nonexistent").is_none());
    assert!(!palette_exists("nonexistent"));
    assert!(get_palette("").is_none());
    assert!(!palette_exists(""));
}

#[test]
fn lookup_is_case_sensitive_and_exact() {
    assert!(palette_exists("pico8"));
    assert!(!palette_exists("PICO8"));
    assert!(!palette_exists("Pico8"));
    assert!(!palette_exists("pico8 "));
    assert!(!palette_exists("pico"));
    assert!(get_palette("NES").is_none());
    assert!(get_palette("nes").is_some());
}

#[test]
fn palette_exists_for_every_predefined_key() {
    for key in KEYS {
        assert!(palette_exists(key), "{}", key);
    }
}

#[test]
fn palette_keys_are_the_ten_predefined_ones() {
    let mut keys = get_palette_keys();
    assert_eq!(keys.len(), 10);
    keys.sort();
    let mut expected: Vec<String> = KEYS.iter().map(|k| k.to_string()).collect();
    expected.sort();
    assert_eq!(keys, expected);
}

#[test]
fn default_registry_holds_the_ten_palettes() {
    let registry = get_default_palettes();
    assert_eq!(registry.len(), 10);
    for key in KEYS {
        assert!(registry.contains_key(key), "{}", key);
        let from_registry = registry.get(key).expect("registered");
        let looked_up = get_palette(key).expect("predefined");
        assert_eq!(from_registry.name(), looked_up.name());
        assert_eq!(from_registry.colors(), looked_up.colors());
    }
    assert!(registry.get("nonexistent").is_none());
}

#[test]
fn building_the_registry_twice_gives_the_same() {
    let first = get_default_palettes();
    let second = get_default_palettes();
    assert_eq!(first.keys(), second.keys());
    for key in first.keys() {
        assert_eq!(
            first.get(&key).expect("registered").colors(),
            second.get(&key).expect("registered").colors()
        );
    }
}

#[test]
fn empty_registry_has_nothing() {
    let registry = PaletteRegistry::new();
    assert_eq!(registry.len(), 0);
    assert!(registry.keys().is_empty());
    assert!(!registry.contains_key("pico8"));
    assert!(registry.get("pico8").is_none());
}

#[test]
fn registering_a_key_again_replaces_the_palette() {
    let mut registry = PaletteRegistry::new();
    let first = Palette::new(String::from("First"), vec![Color::new(1, 1, 1)]).expect("one colour");
    let other = Palette::new(String::from("Other"), vec![Color::new(2, 2, 2)]).expect("one colour");
    let second = Palette::new(String::from("Second"), vec![Color::new(3, 3, 3), Color::new(4, 4, 4)])
        .expect("two colours");
    registry.insert(String::from("mine"), first);
    registry.insert(String::from("other"), other);
    assert_eq!(registry.len(), 2);
    registry.insert(String::from("mine"), second);
    assert_eq!(registry.len(), 2);
    let found = registry.get("mine").expect("registered");
    assert_eq!(found.name(), "Second");
    assert_eq!(found.colors(), [Color::new(3, 3, 3), Color::new(4, 4, 4)].as_slice());
    assert_eq!(registry.get("other").expect("registered").name(), "Other");
    assert_eq!(registry.keys(), vec![String::from("mine"), String::from("other")]);
}
