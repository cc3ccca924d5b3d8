//! The whole transformation, in its fixed order: pixelate, quantize,
//! enlarge back.

use vstd::prelude::*;
use crate::catalog::{default_palettes, get_palette};
use crate::color::Color;
use crate::error::RetroError;
use crate::matcher::closest;
use crate::quantize::{colorize, colorized, lemma_quantized_solid};
use crate::raster::{is_solid, Image};
use crate::resample::{block_count, lemma_drawn_from_solid, pixelate, upscale, MAX_SMOOTH_SIDE};

verus! {

/// Stylizes an image: pixelates it with blocks of `pixel_size`, maps every
/// block to the nearest colour of the predefined palette `palette_key`, and
/// enlarges the result smoothly to the size of the image that came in.
///
/// An unknown palette key is reported first, then a pixel size of zero, then
/// an image with a side longer than `MAX_SMOOTH_SIDE`; on every other input
/// an image as wide and as high as the input comes back. An input of a
/// single colour gives an image of a single colour, the palette entry
/// closest to it. Where the blocks are single pixels, as with a pixel size
/// of one, the result is the input colorized. Otherwise its pixels are what
/// the smoothing filter makes of the quantized blocks, which is not stated
/// here.
pub fn stylize(image: Image, pixel_size: u32, palette_key: &str) -> (res: Result<Image, RetroError>)
    ensures
        !default_palettes().dom().contains(palette_key@) ==> res == Err::<Image, RetroError>(
            RetroError::PaletteNotFound,
        ),
        default_palettes().dom().contains(palette_key@) && pixel_size == 0 ==> res == Err::<
            Image,
            RetroError,
        >(RetroError::DegeneratePixelSize),
        default_palettes().dom().contains(palette_key@) && pixel_size > 0 && !(image@.width
            <= MAX_SMOOTH_SIDE && image@.height <= MAX_SMOOTH_SIDE) ==> res == Err::<
            Image,
            RetroError,
        >(RetroError::ImageTooLarge),
        default_palettes().dom().contains(palette_key@) && pixel_size > 0 && image@.width
            <= MAX_SMOOTH_SIDE && image@.height <= MAX_SMOOTH_SIDE ==> res is Ok,
        res matches Ok(out) ==> {
            &&& out@.wf()
            &&& out@.width == image@.width
            &&& out@.height == image@.height
            &&& forall|color: Color| #[trigger]
                is_solid(image@.pixels, color) ==> is_solid(
                    out@.pixels,
                    closest(color, default_palettes()[palette_key@].colors),
                )
            &&& block_count(image@.width, pixel_size as nat) == image@.width && block_count(
                image@.height,
                pixel_size as nat,
            ) == image@.height ==> out@ == colorized(
                image@,
                default_palettes()[palette_key@].colors,
            )
        },
{
    let palette = match get_palette(palette_key) {
        Some(palette) => palette,
        None => {
            return Err(RetroError::PaletteNotFound);
        },
    };
    let width = image.width();
    let height = image.height();
    if pixel_size > 0 && (width > MAX_SMOOTH_SIDE || height > MAX_SMOOTH_SIDE) {
        return Err(RetroError::ImageTooLarge);
    }
    let ghost source = image@;
    let small = match pixelate(image, pixel_size) {
        Ok(small) => small,
        Err(error) => {
            return Err(error);
        },
    };
    let ghost blocks = small@;
    let flat = colorize(small, &palette);
    let out = upscale(&flat, width, height).unwrap();
    proof {
        assert forall|color: Color| #[trigger] is_solid(source.pixels, color) implies is_solid(
            out@.pixels,
            closest(color, palette@.colors),
        ) by {
            lemma_drawn_from_solid(blocks.pixels, source.pixels, color);
            lemma_quantized_solid(blocks.pixels, palette@.colors, color);
            assert(is_solid(flat@.pixels, closest(color, palette@.colors)));
        }
    }
    Ok(out)
}

} // verus!
