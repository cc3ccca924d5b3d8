//! Quantization: every pixel is replaced by the nearest colour of a palette.

use vstd::prelude::*;
use crate::color::Color;
use crate::matcher::{closest, closest_color, lemma_closest_is_nearest, lemma_member_maps_to_itself};
use crate::palette::Palette;
use crate::raster::{is_solid, Image, ImageView};

verus! {

/// The pixels, each replaced by the entry of `colors` closest to it. Every
/// pixel is mapped on its own: what becomes of it depends on no other pixel.
pub open spec fn quantized(pixels: Seq<Color>, colors: Seq<Color>) -> Seq<Color> {
    Seq::new(pixels.len(), |i: int| closest(pixels[i], colors))
}

/// The image of the same width and height whose every pixel is the entry
/// of `colors` closest to the pixel that `image` has there.
pub open spec fn colorized(image: ImageView, colors: Seq<Color>) -> ImageView {
    ImageView {
        width: image.width,
        height: image.height,
        pixels: quantized(image.pixels, colors),
    }
}

/// Colorizes an image with a palette: the result has the same width and
/// height, and each of its pixels is the palette colour closest to the
/// pixel that was there.
pub fn colorize(image: Image, palette: &Palette) -> (res: Image)
    ensures
        res@ == colorized(image@, palette@.colors),
        res@.wf(),
{
    let width = image.width();
    let height = image.height();
    let source = image.pixels();
    let mut pixels: Vec<Color> = Vec::new();
    let mut i: usize = 0;
    while i < source.len()
        invariant
            i <= source@.len(),
            pixels@ == quantized(source@, palette@.colors).take(i as int),
        decreases source@.len() - i,
    {
        pixels.push(closest_color(source[i], palette));
        i += 1;
    }
    assert(pixels@ == quantized(source@, palette@.colors));
    Image::new(width, height, pixels).unwrap()
}

/// After quantization every pixel is a colour of the palette.
pub proof fn lemma_quantized_in_palette(pixels: Seq<Color>, colors: Seq<Color>)
    requires
        colors.len() > 0,
    ensures
        quantized(pixels, colors).len() == pixels.len(),
        forall|i: int|
            0 <= i < pixels.len() ==> colors.contains(#[trigger] quantized(pixels, colors)[i]),
{
    assert forall|i: int| 0 <= i < pixels.len() implies colors.contains(
        #[trigger] quantized(pixels, colors)[i],
    ) by {
        lemma_closest_is_nearest(pixels[i], colors);
    }
}

/// Quantizing pixels of a single colour gives pixels of a single colour: the
/// palette entry closest to it.
pub proof fn lemma_quantized_solid(pixels: Seq<Color>, colors: Seq<Color>, color: Color)
    requires
        is_solid(pixels, color),
    ensures
        is_solid(quantized(pixels, colors), closest(color, colors)),
{
    assert forall|i: int| 0 <= i < quantized(pixels, colors).len() implies quantized(
        pixels,
        colors,
    )[i] == closest(color, colors) by {
        assert(pixels[i] == color);
    }
}

/// Quantizing twice with the same palette is quantizing once: a pixel that
/// is a palette colour already is its own nearest match.
pub proof fn lemma_quantize_idempotent(pixels: Seq<Color>, colors: Seq<Color>)
    requires
        colors.len() > 0,
    ensures
        quantized(quantized(pixels, colors), colors) == quantized(pixels, colors),
{
    let once = quantized(pixels, colors);
    lemma_quantized_in_palette(pixels, colors);
    assert forall|i: int| 0 <= i < once.len() implies closest(once[i], colors) == once[i] by {
        lemma_member_maps_to_itself(once[i], colors);
    }
}

/// Colorizing an image that was colorized with the same palette changes
/// nothing.
pub proof fn lemma_colorize_idempotent(image: ImageView, colors: Seq<Color>)
    requires
        colors.len() > 0,
    ensures
        colorized(colorized(image, colors), colors) == colorized(image, colors),
{
    lemma_quantize_idempotent(image.pixels, colors);
}

} // verus!
