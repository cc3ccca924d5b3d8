use retro_palette::catalog::get_palette;
use retro_palette::color::{euclidean_distance, Color, MAX_DISTANCE};
use retro_palette::matcher::closest_color;
use retro_palette::palette::Palette;

fn palette_of(colors: Vec<Color>) -> Palette {
    Palette::new(String::from("test"), colors).expect("a palette with colours")
}

#[test]
fn distance_is_sum_of_squared_channel_differences() {
    let a = Color::new(10, 20, 30);
    let b = Color::new(13, 16, 42);
    assert_eq!(euclidean_distance(a, b), 9 + 16 + 144);
}

#[test]
fn distance_between_black_and_white_is_the_maximum() {
    let black = Color::new(0, 0, 0);
    let white = Color::new(255, 255, 255);
    assert_eq!(euclidean_distance(black, white), 195075);
    assert_eq!(euclidean_distance(white, black), MAX_DISTANCE);
}

#[test]
fn distance_to_itself_is_zero() {
    let c = Color::new(77, 0, 255);
    assert_eq!(euclidean_distance(c, c), 0);
}

#[test]
fn distance_is_symmetric() {
    let a = Color::new(200, 3, 90);
    let b = Color::new(1, 250, 91);
    assert_eq!(euclidean_distance(a, b), euclidean_distance(b, a));
    assert_eq!(euclidean_distance(a, b), 199 * 199 + 247 * 247 + 1);
}

#[test]
fn color_new_sets_the_channels() {
    let c = Color::new(1, 2, 3);
    assert_eq!(c.r, 1);
    assert_eq!(c.g, 2);
    assert_eq!(c.b, 3);
    assert_eq!(c, Color { r: 1, g: 2, b: 3 });
}

#[test]
fn exact_match_wins_in_either_order() {
    let a = Color::new(100, 100, 100);
    let b = Color::new(101, 100, 100);
    assert_eq!(closest_color(a, &palette_of(vec![a, b])), a);
    assert_eq!(closest_color(a, &palette_of(vec![b, a])), a);
    assert_eq!(closest_color(b, &palette_of(vec![a, b])), b);
}

#[test]
fn ties_go_to_the_colour_stored_first() {
    let x = Color::new(10, 10, 10);
    let c1 = Color::new(12, 10, 10);
    let c2 = Color::new(8, 10, 10);
    assert_eq!(euclidean_distance(x, c1), euclidean_distance(x, c2));
    assert_eq!(closest_color(x, &palette_of(vec![c1, c2])), c1);
    assert_eq!(closest_color(x, &palette_of(vec![c2, c1])), c2);
}

#[test]
fn ties_among_many_go_to_the_earliest() {
    let x = Color::new(50, 50, 50);
    let far = Color::new(0, 0, 0);
    let near1 = Color::new(50, 53, 50);
    let near2 = Color::new(53, 50, 50);
    let near3 = Color::new(50, 50, 47);
    let palette = palette_of(vec![far, near1, near2, near3]);
    assert_eq!(closest_color(x, &palette), near1);
}

#[test]
fn closest_of_a_single_colour_palette_is_that_colour() {
    let only = Color::new(1, 2, 3);
    let palette = palette_of(vec![only]);
    assert_eq!(closest_color(Color::new(255, 255, 255), &palette), only);
    assert_eq!(closest_color(Color::new(0, 0, 0), &palette), only);
}

#[test]
fn closest_picks_the_least_distance_not_the_first_entry() {
    let palette = palette_of(vec![
        Color::new(0, 0, 0),
        Color::new(255, 255, 255),
        Color::new(120, 130, 140),
    ]);
    assert_eq!(closest_color(Color::new(119, 131, 139), &palette), Color::new(120, 130, 140));
    assert_eq!(closest_color(Color::new(250, 250, 250), &palette), Color::new(255, 255, 255));
    assert_eq!(closest_color(Color::new(3, 2, 1), &palette), Color::new(0, 0, 0));
}

#[test]
fn pure_red_maps_to_the_red_of_pico8() {
    let pico8 = get_palette("pico8").expect("pico8 is predefined");
    let red = Color::new(255, 0, 0);
    let mapped = closest_color(red, &pico8);
    assert_eq!(mapped, Color::new(255, 0, 77));
    assert_eq!(pico8.get_color(8), Some(&mapped));
    assert_eq!(euclidean_distance(red, mapped), 5929);
}

#[test]
fn mid_grey_maps_to_the_darker_of_two_equally_near_greys() {
    let greys = get_palette("grayscale4").expect("grayscale4 is predefined");
    let between = Color::new(128, 128, 128);
    assert_eq!(closest_color(between, &greys), Color::new(170, 170, 170));
    let halfway = palette_of(vec![Color::new(100, 100, 100), Color::new(102, 102, 102)]);
    assert_eq!(closest_color(Color::new(101, 101, 101), &halfway), Color::new(100, 100, 100));
}
