//! The predefined palettes and the lookups on them.
//!
//! The colour tables are fixed: other programs rely on these exact values
//! and on their order.

use vstd::prelude::*;
use crate::color::{rgb, Color};
use crate::palette::{Palette, PaletteView};
use crate::registry::PaletteRegistry;

verus! {

/// Four greys, from black to white.
pub open spec fn grayscale4_colors() -> Seq<Color> {
    seq![
        rgb(0, 0, 0), // black
        rgb(85, 85, 85), // dark gray
        rgb(170, 170, 170), // light gray
        rgb(255, 255, 255), // white
    ]
}

/// The palette "4-Color Grayscale", registered under `grayscale4`.
pub open spec fn grayscale4_palette() -> PaletteView {
    PaletteView { name: "4-Color Grayscale"@, colors: grayscale4_colors() }
}

fn grayscale4() -> (palette: Palette)
    ensures
        palette@ == grayscale4_palette(),
{
    let colors = vec![
        Color::new(0, 0, 0),
        Color::new(85, 85, 85),
        Color::new(170, 170, 170),
        Color::new(255, 255, 255),
    ];
    Palette::new("4-Color Grayscale".to_owned(), colors).unwrap()
}

/// Eight greys, from black to white.
pub open spec fn grayscale8_colors() -> Seq<Color> {
    seq![
        rgb(0, 0, 0), // black
        rgb(36, 36, 36), // very dark gray
        rgb(73, 73, 73), // dark gray
        rgb(109, 109, 109), // medium dark gray
        rgb(146, 146, 146), // medium gray
        rgb(182, 182, 182), // medium light gray
        rgb(219, 219, 219), // light gray
        rgb(255, 255, 255), // white
    ]
}

/// The palette "8-Color Grayscale", registered under `grayscale8`.
pub open spec fn grayscale8_palette() -> PaletteView {
    PaletteView { name: "8-Color Grayscale"@, colors: grayscale8_colors() }
}

fn grayscale8() -> (palette: Palette)
    ensures
        palette@ == grayscale8_palette(),
{
    let colors = vec![
        Color::new(0, 0, 0),
        Color::new(36, 36, 36),
        Color::new(73, 73, 73),
        Color::new(109, 109, 109),
        Color::new(146, 146, 146),
        Color::new(182, 182, 182),
        Color::new(219, 219, 219),
        Color::new(255, 255, 255),
    ];
    Palette::new("8-Color Grayscale".to_owned(), colors).unwrap()
}

/// The four greens of the Game Boy screen.
pub open spec fn gameboy_colors() -> Seq<Color> {
    seq![
        rgb(15, 56, 15), // darkest green
        rgb(48, 98, 48), // dark green
        rgb(139, 172, 15), // light green
        rgb(155, 188, 15), // lightest green
    ]
}

/// The palette "Game Boy Green", registered under `gameboy`.
pub open spec fn gameboy_palette() -> PaletteView {
    PaletteView { name: "Game Boy Green"@, colors: gameboy_colors() }
}

fn gameboy() -> (palette: Palette)
    ensures
        palette@ == gameboy_palette(),
{
    let colors = vec![
        Color::new(15, 56, 15),
        Color::new(48, 98, 48),
        Color::new(139, 172, 15),
        Color::new(155, 188, 15),
    ];
    Palette::new("Game Boy Green".to_owned(), colors).unwrap()
}

/// The sixteen colours of the PICO-8 console.
pub open spec fn pico8_colors() -> Seq<Color> {
    seq![
        rgb(0, 0, 0), // black
        rgb(29, 43, 83), // dark blue
        rgb(126, 37, 83), // dark purple
        rgb(0, 135, 81), // dark green
        rgb(171, 82, 54), // brown
        rgb(95, 87, 79), // dark grey
        rgb(194, 195, 199), // light grey
        rgb(255, 241, 232), // white
        rgb(255, 0, 77), // red
        rgb(255, 163, 0), // orange
        rgb(255, 236, 39), // yellow
        rgb(0, 228, 54), // green
        rgb(41, 173, 255), // blue
        rgb(131, 118, 156), // indigo
        rgb(255, 119, 168), // pink
        rgb(255, 204, 170), // peach
    ]
}

/// The palette "PICO-8", registered under `pico8`.
pub open spec fn pico8_palette() -> PaletteView {
    PaletteView { name: "PICO-8"@, colors: pico8_colors() }
}

fn pico8() -> (palette: Palette)
    ensures
        palette@ == pico8_palette(),
{
    let colors = vec![
        Color::new(0, 0, 0),
        Color::new(29, 43, 83),
        Color::new(126, 37, 83),
        Color::new(0, 135, 81),
        Color::new(171, 82, 54),
        Color::new(95, 87, 79),
        Color::new(194, 195, 199),
        Color::new(255, 241, 232),
        Color::new(255, 0, 77),
        Color::new(255, 163, 0),
        Color::new(255, 236, 39),
        Color::new(0, 228, 54),
        Color::new(41, 173, 255),
        Color::new(131, 118, 156),
        Color::new(255, 119, 168),
        Color::new(255, 204, 170),
    ];
    Palette::new("PICO-8".to_owned(), colors).unwrap()
}

/// The sixteen colours of the Commodore VIC-20.
pub open spec fn commodore_colors() -> Seq<Color> {
    seq![
        rgb(0, 0, 0), // black
        rgb(255, 255, 255), // white
        rgb(120, 0, 0), // red
        rgb(0, 255, 204), // cyan
        rgb(204, 51, 204), // purple
        rgb(0, 204, 0), // green
        rgb(0, 0, 204), // blue
        rgb(255, 255, 0), // yellow
        rgb(255, 153, 0), // orange
        rgb(255, 204, 153), // light orange
        rgb(255, 153, 153), // pink
        rgb(153, 255, 255), // light cyan
        rgb(255, 153, 255), // light purple
        rgb(153, 255, 153), // light green
        rgb(153, 153, 255), // light blue
        rgb(204, 204, 204), // light gray
    ]
}

/// The palette "Commodore VIC-20", registered under `commodore`.
pub open spec fn commodore_palette() -> PaletteView {
    PaletteView { name: "Commodore VIC-20"@, colors: commodore_colors() }
}

fn commodore() -> (palette: Palette)
    ensures
        palette@ == commodore_palette(),
{
    let colors = vec![
        Color::new(0, 0, 0),
        Color::new(255, 255, 255),
        Color::new(120, 0, 0),
        Color::new(0, 255, 204),
        Color::new(204, 51, 204),
        Color::new(0, 204, 0),
        Color::new(0, 0, 204),
        Color::new(255, 255, 0),
        Color::new(255, 153, 0),
        Color::new(255, 204, 153),
        Color::new(255, 153, 153),
        Color::new(153, 255, 255),
        Color::new(255, 153, 255),
        Color::new(153, 255, 153),
        Color::new(153, 153, 255),
        Color::new(204, 204, 204),
    ];
    Palette::new("Commodore VIC-20".to_owned(), colors).unwrap()
}

/// Sixteen colours after the NES (NTSC).
pub open spec fn nes_colors() -> Seq<Color> {
    seq![
        rgb(0, 0, 0), // black
        rgb(128, 128, 128), // gray
        rgb(255, 255, 255), // white
        rgb(204, 0, 0), // red
        rgb(0, 204, 0), // green
        rgb(0, 0, 204), // blue
        rgb(255, 255, 0), // yellow
        rgb(255, 0, 255), // magenta
        rgb(0, 255, 255), // cyan
        rgb(255, 128, 0), // orange
        rgb(128, 0, 128), // purple
        rgb(128, 128, 0), // olive
        rgb(0, 128, 128), // teal
        rgb(128, 0, 0), // maroon
        rgb(0, 128, 0), // dark green
        rgb(0, 0, 128), // navy
    ]
}

/// The palette "NES NTSC", registered under `nes`.
pub open spec fn nes_palette() -> PaletteView {
    PaletteView { name: "NES NTSC"@, colors: nes_colors() }
}

fn nes() -> (palette: Palette)
    ensures
        palette@ == nes_palette(),
{
    let colors = vec![
        Color::new(0, 0, 0),
        Color::new(128, 128, 128),
        Color::new(255, 255, 255),
        Color::new(204, 0, 0),
        Color::new(0, 204, 0),
        Color::new(0, 0, 204),
        Color::new(255, 255, 0),
        Color::new(255, 0, 255),
        Color::new(0, 255, 255),
        Color::new(255, 128, 0),
        Color::new(128, 0, 128),
        Color::new(128, 128, 0),
        Color::new(0, 128, 128),
        Color::new(128, 0, 0),
        Color::new(0, 128, 0),
        Color::new(0, 0, 128),
    ];
    Palette::new("NES NTSC".to_owned(), colors).unwrap()
}

/// Eight pastel colours.
pub open spec fn candy_colors() -> Seq<Color> {
    seq![
        rgb(255, 182, 193), // pink
        rgb(255, 218, 185), // peach
        rgb(255, 245, 186), // light yellow
        rgb(186, 245, 186), // light green
        rgb(186, 218, 255), // light blue
        rgb(218, 186, 255), // light purple
        rgb(255, 186, 235), // light magenta
        rgb(245, 245, 245), // almost white
    ]
}

/// The palette "Sweet Candy", registered under `candy`.
pub open spec fn candy_palette() -> PaletteView {
    PaletteView { name: "Sweet Candy"@, colors: candy_colors() }
}

fn candy() -> (palette: Palette)
    ensures
        palette@ == candy_palette(),
{
    let colors = vec![
        Color::new(255, 182, 193),
        Color::new(255, 218, 185),
        Color::new(255, 245, 186),
        Color::new(186, 245, 186),
        Color::new(186, 218, 255),
        Color::new(218, 186, 255),
        Color::new(255, 186, 235),
        Color::new(245, 245, 245),
    ];
    Palette::new("Sweet Candy".to_owned(), colors).unwrap()
}

/// Eight warm browns and oranges.
pub open spec fn retro_warm_colors() -> Seq<Color> {
    seq![
        rgb(51, 25, 0), // dark brown
        rgb(153, 77, 26), // brown
        rgb(230, 128, 51), // orange
        rgb(255, 204, 102), // yellow
        rgb(255, 230, 179), // cream
        rgb(204, 102, 51), // rust
        rgb(128, 51, 26), // dark rust
        rgb(77, 38, 13), // very dark brown
    ]
}

/// The palette "Retro Warm", registered under `retro_warm`.
pub open spec fn retro_warm_palette() -> PaletteView {
    PaletteView { name: "Retro Warm"@, colors: retro_warm_colors() }
}

fn retro_warm() -> (palette: Palette)
    ensures
        palette@ == retro_warm_palette(),
{
    let colors = vec![
        Color::new(51, 25, 0),
        Color::new(153, 77, 26),
        Color::new(230, 128, 51),
        Color::new(255, 204, 102),
        Color::new(255, 230, 179),
        Color::new(204, 102, 51),
        Color::new(128, 51, 26),
        Color::new(77, 38, 13),
    ];
    Palette::new("Retro Warm".to_owned(), colors).unwrap()
}

/// Eight blues, from deep sea to white.
pub open spec fn ocean_colors() -> Seq<Color> {
    seq![
        rgb(0, 26, 51), // deep ocean
        rgb(0, 51, 102), // dark blue
        rgb(26, 102, 153), // ocean blue
        rgb(51, 153, 204), // light blue
        rgb(102, 204, 255), // sky blue
        rgb(179, 230, 255), // pale blue
        rgb(230, 242, 255), // almost white
        rgb(255, 255, 255), // white
    ]
}

/// The palette "Ocean Blue", registered under `ocean`.
pub open spec fn ocean_palette() -> PaletteView {
    PaletteView { name: "Ocean Blue"@, colors: ocean_colors() }
}

fn ocean() -> (palette: Palette)
    ensures
        palette@ == ocean_palette(),
{
    let colors = vec![
        Color::new(0, 26, 51),
        Color::new(0, 51, 102),
        Color::new(26, 102, 153),
        Color::new(51, 153, 204),
        Color::new(102, 204, 255),
        Color::new(179, 230, 255),
        Color::new(230, 242, 255),
        Color::new(255, 255, 255),
    ];
    Palette::new("Ocean Blue".to_owned(), colors).unwrap()
}

/// Eight colours of a sunset, from dark purple to pale yellow.
pub open spec fn sunset_colors() -> Seq<Color> {
    seq![
        rgb(26, 0, 26), // dark purple
        rgb(77, 26, 51), // purple
        rgb(153, 51, 26), // dark red
        rgb(230, 77, 26), // red
        rgb(255, 128, 26), // orange
        rgb(255, 179, 77), // light orange
        rgb(255, 230, 153), // yellow
        rgb(255, 255, 230), // pale yellow
    ]
}

/// The palette "Sunset Orange", registered under `sunset`.
pub open spec fn sunset_palette() -> PaletteView {
    PaletteView { name: "Sunset Orange"@, colors: sunset_colors() }
}

fn sunset() -> (palette: Palette)
    ensures
        palette@ == sunset_palette(),
{
    let colors = vec![
        Color::new(26, 0, 26),
        Color::new(77, 26, 51),
        Color::new(153, 51, 26),
        Color::new(230, 77, 26),
        Color::new(255, 128, 26),
        Color::new(255, 179, 77),
        Color::new(255, 230, 153),
        Color::new(255, 255, 230),
    ];
    Palette::new("Sunset Orange".to_owned(), colors).unwrap()
}

/// The predefined palettes by key.
pub open spec fn default_palettes() -> Map<Seq<char>, PaletteView> {
    Map::empty()
        .insert("grayscale4"@, grayscale4_palette())
        .insert("grayscale8"@, grayscale8_palette())
        .insert("gameboy"@, gameboy_palette())
        .insert("pico8"@, pico8_palette())
        .insert("commodore"@, commodore_palette())
        .insert("nes"@, nes_palette())
        .insert("candy"@, candy_palette())
        .insert("retro_warm"@, retro_warm_palette())
        .insert("ocean"@, ocean_palette())
        .insert("sunset"@, sunset_palette())
}

/// The keys of the predefined palettes.
pub open spec fn default_keys() -> Set<Seq<char>> {
    set![
        "grayscale4"@,
        "grayscale8"@,
        "gameboy"@,
        "pico8"@,
        "commodore"@,
        "nes"@,
        "candy"@,
        "retro_warm"@,
        "ocean"@,
        "sunset"@,
    ]
}

/// Builds the registry of the predefined palettes. Nothing is read and
/// nothing is drawn at random: every call returns the same registry.
pub fn get_default_palettes() -> (palettes: PaletteRegistry)
    ensures
        palettes@ == default_palettes(),
{
    let mut palettes = PaletteRegistry::new();
    palettes.insert("grayscale4".to_owned(), grayscale4());
    palettes.insert("grayscale8".to_owned(), grayscale8());
    palettes.insert("gameboy".to_owned(), gameboy());
    palettes.insert("pico8".to_owned(), pico8());
    palettes.insert("commodore".to_owned(), commodore());
    palettes.insert("nes".to_owned(), nes());
    palettes.insert("candy".to_owned(), candy());
    palettes.insert("retro_warm".to_owned(), retro_warm());
    palettes.insert("ocean".to_owned(), ocean());
    palettes.insert("sunset".to_owned(), sunset());
    palettes
}

/// Looks a predefined palette up by its key. The match is exact and
/// case-sensitive. The caller gets a copy of its own.
pub fn get_palette(key: &str) -> (res: Option<Palette>)
    ensures
        res is Some <==> default_palettes().dom().contains(key@),
        res matches Some(palette) ==> palette@ == default_palettes()[key@],
{
    let palettes = get_default_palettes();
    match palettes.get(key) {
        Some(palette) => Some(palette.clone()),
        None => None,
    }
}

/// The keys of all predefined palettes, each once. The order carries no
/// meaning.
pub fn get_palette_keys() -> (keys: Vec<String>)
    ensures
        keys@.len() == 10,
        forall|i: int| 0 <= i < keys@.len() ==> default_keys().contains(#[trigger] keys@[i]@),
        forall|i: int, j: int|
            0 <= i < j < keys@.len() ==> (#[trigger] keys@[i])@ != (#[trigger] keys@[j])@,
        forall|key: Seq<char>|
            default_keys().contains(key) ==> exists|i: int|
                0 <= i < keys@.len() && (#[trigger] keys@[i])@ == key,
{
    proof {
        lemma_default_keys();
    }
    get_default_palettes().keys()
}

/// Whether `key` names a predefined palette.
pub fn palette_exists(key: &str) -> (b: bool)
    ensures
        b == default_palettes().dom().contains(key@),
        b == default_keys().contains(key@),
{
    proof {
        lemma_default_keys();
    }
    let palettes = get_default_palettes();
    palettes.contains_key(key)
}

/// The ten keys are pairwise different: any two differ in length or in a
/// character.
proof fn lemma_keys_differ()
    ensures
        "grayscale4"@ != "grayscale8"@,
        "grayscale4"@ != "gameboy"@,
        "grayscale4"@ != "pico8"@,
        "grayscale4"@ != "commodore"@,
        "grayscale4"@ != "nes"@,
        "grayscale4"@ != "candy"@,
        "grayscale4"@ != "retro_warm"@,
        "grayscale4"@ != "ocean"@,
        "grayscale4"@ != "sunset"@,
        "grayscale8"@ != "gameboy"@,
        "grayscale8"@ != "pico8"@,
        "grayscale8"@ != "commodore"@,
        "grayscale8"@ != "nes"@,
        "grayscale8"@ != "candy"@,
        "grayscale8"@ != "retro_warm"@,
        "grayscale8"@ != "ocean"@,
        "grayscale8"@ != "sunset"@,
        "gameboy"@ != "pico8"@,
        "gameboy"@ != "commodore"@,
        "gameboy"@ != "nes"@,
        "gameboy"@ != "candy"@,
        "gameboy"@ != "retro_warm"@,
        "gameboy"@ != "ocean"@,
        "gameboy"@ != "sunset"@,
        "pico8"@ != "commodore"@,
        "pico8"@ != "nes"@,
        "pico8"@ != "candy"@,
        "pico8"@ != "retro_warm"@,
        "pico8"@ != "ocean"@,
        "pico8"@ != "sunset"@,
        "commodore"@ != "nes"@,
        "commodore"@ != "candy"@,
        "commodore"@ != "retro_warm"@,
        "commodore"@ != "ocean"@,
        "commodore"@ != "sunset"@,
        "nes"@ != "candy"@,
        "nes"@ != "retro_warm"@,
        "nes"@ != "ocean"@,
        "nes"@ != "sunset"@,
        "candy"@ != "retro_warm"@,
        "candy"@ != "ocean"@,
        "candy"@ != "sunset"@,
        "retro_warm"@ != "ocean"@,
        "retro_warm"@ != "sunset"@,
        "ocean"@ != "sunset"@,
{
    reveal_strlit("grayscale4");
    reveal_strlit("grayscale8");
    reveal_strlit("gameboy");
    reveal_strlit("pico8");
    reveal_strlit("commodore");
    reveal_strlit("nes");
    reveal_strlit("candy");
    reveal_strlit("retro_warm");
    reveal_strlit("ocean");
    reveal_strlit("sunset");
    assert("grayscale4"@.len() == 10);
    assert("grayscale8"@.len() == 10);
    assert("gameboy"@.len() == 7);
    assert("pico8"@.len() == 5);
    assert("commodore"@.len() == 9);
    assert("nes"@.len() == 3);
    assert("candy"@.len() == 5);
    assert("retro_warm"@.len() == 10);
    assert("ocean"@.len() == 5);
    assert("sunset"@.len() == 6);
    assert("grayscale4"@[9] != "grayscale8"@[9]);
    assert("grayscale4"@[0] != "retro_warm"@[0]);
    assert("grayscale8"@[0] != "retro_warm"@[0]);
    assert("pico8"@[0] != "candy"@[0]);
    assert("pico8"@[0] != "ocean"@[0]);
    assert("candy"@[0] != "ocean"@[0]);
}

/// The predefined palettes are registered under exactly the ten keys of
/// `default_keys`.
pub proof fn lemma_default_keys()
    ensures
        default_palettes().dom() == default_keys(),
        default_keys().finite(),
        default_keys().len() == 10,
{
    lemma_keys_differ();
}

/// What each key is registered with.
pub proof fn lemma_default_palettes()
    ensures
        default_palettes()["grayscale4"@] == grayscale4_palette(),
        default_palettes()["grayscale8"@] == grayscale8_palette(),
        default_palettes()["gameboy"@] == gameboy_palette(),
        default_palettes()["pico8"@] == pico8_palette(),
        default_palettes()["commodore"@] == commodore_palette(),
        default_palettes()["nes"@] == nes_palette(),
        default_palettes()["candy"@] == candy_palette(),
        default_palettes()["retro_warm"@] == retro_warm_palette(),
        default_palettes()["ocean"@] == ocean_palette(),
        default_palettes()["sunset"@] == sunset_palette(),
{
    lemma_keys_differ();
}

/// Every predefined palette has at least one colour; each has the number
/// of colours that its table shows, and PICO-8 runs from black to peach.
pub proof fn lemma_default_palettes_nonempty()
    ensures
        forall|key: Seq<char>|
            default_palettes().dom().contains(key) ==> (#[trigger] default_palettes()[key]).colors.len()
                > 0,
        pico8_colors().first() == rgb(0, 0, 0),
        pico8_colors().last() == rgb(255, 204, 170),
        grayscale4_colors().len() == 4,
        grayscale8_colors().len() == 8,
        gameboy_colors().len() == 4,
        pico8_colors().len() == 16,
        commodore_colors().len() == 16,
        nes_colors().len() == 16,
        candy_colors().len() == 8,
        retro_warm_colors().len() == 8,
        ocean_colors().len() == 8,
        sunset_colors().len() == 8,
{
    lemma_default_keys();
    lemma_default_palettes();
}

} // verus!
