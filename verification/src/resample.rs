//! Resizing: the shrinking that turns an image into coarse blocks, and the
//! smooth enlargement that brings it back to its first size.

use vstd::prelude::*;
use crate::color::Color;
use crate::error::RetroError;
use crate::raster::{
    bytes_of, colors_of, is_solid, is_valid_shape, lemma_colors_of_bytes, valid_shape, Image,
    ImageView,
};

verus! {

/// How the pixels of a resized image are computed from those of its source.
#[derive(Clone, Copy, Debug, PartialEq, Eq, Structural)]
enum Filter {
    /// Each new pixel is a copy of one pixel of the source: hard edges stay
    /// hard.
    Nearest,
    /// Each new pixel blends the pixels around its place in the source,
    /// weighted by a Lanczos kernel of window 3.
    Lanczos3,
}

/// The bytes of the image that nearest-neighbour resizing makes of the image
/// `raw`, `width` by `height`, when asked for `new_width` by `new_height`.
/// Images are interleaved red, green and blue bytes, row by row.
pub uninterp spec fn nearest_resized(
    raw: Seq<u8>,
    width: nat,
    height: nat,
    new_width: nat,
    new_height: nat,
) -> Seq<u8>;

/// Every pixel of `pixels` occurs in `source`: no colour is new.
pub open spec fn drawn_from(pixels: Seq<Color>, source: Seq<Color>) -> bool {
    forall|i: int| 0 <= i < pixels.len() ==> source.contains(#[trigger] pixels[i])
}

/// The longest side that the smooth filter is used on. The filter places
/// its samples in single-precision arithmetic; up to this length every
/// sample lands within a fifth of a pixel of its exact place.
pub const MAX_SMOOTH_SIDE: u32 = 1048576;

/// Whether an image of `old_width` by `old_height` can be enlarged smoothly
/// to `width` by `height`: no side gets shorter, and none is longer than
/// `MAX_SMOOTH_SIDE`.
pub open spec fn can_enlarge(old_width: int, old_height: int, width: int, height: int) -> bool {
    &&& old_width <= width <= MAX_SMOOTH_SIDE
    &&& old_height <= height <= MAX_SMOOTH_SIDE
}

/// Calls `image::imageops::resize` on an 8-bit RGB image given as
/// interleaved bytes, and hands back the bytes of the new image.
///
/// Trusted, not proved. Claimed of the outside function:
/// - it returns an image of exactly the size asked for, so three bytes for
///   each of `new_width * new_height` pixels;
/// - asked for the size the source has, it returns a copy of the source,
///   whatever the filter;
/// - a source of a single colour gives a result of that colour: each new
///   pixel is a weighted mean of source pixels, the weights divided by their
///   sum, rounded to the nearest byte;
/// - with the nearest-neighbour filter the result depends on the arguments
///   alone, and is given the name `nearest_resized`; the sampling window
///   then holds a single source pixel of weight one, so every new pixel is
///   a copy of some pixel of the source.
/// Of the Lanczos filter, which evaluates a sine, nothing more is claimed.
///
/// The preconditions keep the call from panicking. Its two allocations, one
/// of four floats for each of `width * new_height` pixels and one for the
/// result, stay within what a vector can hold. The Lanczos filter is used
/// for enlarging only, on sides of at most `MAX_SMOOTH_SIDE`. It finds the
/// centre of each new pixel in the source by single-precision arithmetic
/// and sums the kernel over the at most seven source pixels within three of
/// that centre, cut off at the border. With sides that short the centre is
/// off by less than a fifth of a pixel, so the source pixel nearest to it is
/// among them with a weight above 0.3, and the sum stays above 0.25: the
/// division by the sum is sound. On longer sides the centre can drift by
/// whole pixels, the sum can be zero, and the call can panic. The figures
/// hold for a sine that is accurate to a hundredth.
#[verifier::external_body]
fn resize_raw(
    raw: Vec<u8>,
    width: u32,
    height: u32,
    new_width: u32,
    new_height: u32,
    filter: Filter,
) -> (out: Vec<u8>)
    requires
        valid_shape(width as int, height as int),
        valid_shape(new_width as int, new_height as int),
        valid_shape(width as int, new_height as int),
        raw@.len() == 3 * (width * height),
        filter == Filter::Lanczos3 ==> can_enlarge(
            width as int,
            height as int,
            new_width as int,
            new_height as int,
        ),
    ensures
        out@.len() == 3 * (new_width * new_height),
        new_width == width && new_height == height ==> out@ == raw@,
        forall|color: Color| #[trigger]
            is_solid(colors_of(raw@), color) ==> is_solid(colors_of(out@), color),
        filter == Filter::Nearest ==> out@ == nearest_resized(
            raw@,
            width as nat,
            height as nat,
            new_width as nat,
            new_height as nat,
        ),
        filter == Filter::Nearest ==> drawn_from(colors_of(out@), colors_of(raw@)),
{
    let source = image::RgbImage::from_raw(width, height, raw).unwrap();
    let kind = match filter {
        Filter::Nearest => image::imageops::FilterType::Nearest,
        Filter::Lanczos3 => image::imageops::FilterType::Lanczos3,
    };
    image::imageops::resize(&source, new_width, new_height, kind).into_raw()
}

/// How many blocks of `pixel_size` a side of `size` pixels is cut into:
/// `size / pixel_size` rounded down, and one where that would be none.
pub open spec fn block_count(size: nat, pixel_size: nat) -> nat {
    if size / pixel_size == 0 {
        1
    } else {
        size / pixel_size
    }
}

/// With a pixel size of at least one, no side gets longer and none vanishes;
/// a pixel size of one keeps every side, and one longer than the side
/// leaves a single block.
pub proof fn lemma_block_count(size: nat, pixel_size: nat)
    requires
        pixel_size >= 1,
    ensures
        1 <= block_count(size, pixel_size),
        size >= 1 ==> block_count(size, pixel_size) <= size,
        block_count(size, 1) == if size == 0 {
            1
        } else {
            size
        },
        pixel_size > size ==> block_count(size, pixel_size) == 1,
        pixel_size <= size ==> block_count(size, pixel_size) * pixel_size <= size,
{
    assert(0 <= size as int / pixel_size as int <= size && (size as int / pixel_size as int)
        * pixel_size <= size) by (nonlinear_arith)
        requires
            pixel_size >= 1,
            size >= 0,
    ;
    assert(pixel_size > size ==> size as int / pixel_size as int == 0) by (nonlinear_arith)
        requires
            pixel_size >= 1,
            size >= 0,
    ;
    assert(size >= pixel_size ==> size as int / pixel_size as int >= 1) by (nonlinear_arith)
        requires
            pixel_size >= 1,
            size >= 0,
    ;
}

/// What pixelating `image` with blocks of `pixel_size` gives, for a pixel
/// size of at least one: an image of one pixel per block, sampled from
/// `image` by nearest neighbour.
pub open spec fn pixelated(image: ImageView, pixel_size: nat) -> ImageView {
    let width = block_count(image.width, pixel_size);
    let height = block_count(image.height, pixel_size);
    ImageView {
        width,
        height,
        pixels: colors_of(
            nearest_resized(bytes_of(image.pixels), image.width, image.height, width, height),
        ),
    }
}

/// The number of blocks along a side, computed.
fn blocks_along(size: u32, pixel_size: u32) -> (count: u32)
    requires
        size >= 1,
        pixel_size >= 1,
    ensures
        count == block_count(size as nat, pixel_size as nat),
        1 <= count <= size,
{
    let whole = size / pixel_size;
    assert(size as int / pixel_size as int <= size) by (nonlinear_arith)
        requires
            size >= 1,
            pixel_size >= 1,
    ;
    if whole == 0 {
        1
    } else {
        whole
    }
}

/// A grid with no more columns and no more rows than a valid one is valid.
proof fn lemma_smaller_shape_is_valid(width: int, height: int, new_width: int, new_height: int)
    requires
        valid_shape(width, height),
        1 <= new_width <= width,
        1 <= new_height <= height,
    ensures
        valid_shape(new_width, new_height),
{
    assert(new_width * new_height <= width * height) by (nonlinear_arith)
        requires
            1 <= new_width <= width,
            1 <= new_height <= height,
    ;
}

/// Pixelates an image: shrinks it to one pixel for each block of
/// `pixel_size` by `pixel_size` pixels. The new width and height are the
/// old ones divided by `pixel_size`, rounded down, and at least one. Each
/// new pixel takes the colour of one pixel of the source, with no averaging;
/// where the size does not change, as with a pixel size of one, neither does
/// the image. A pixel size of zero is refused.
pub fn pixelate(image: Image, pixel_size: u32) -> (res: Result<Image, RetroError>)
    ensures
        pixel_size == 0 ==> res == Err::<Image, RetroError>(RetroError::DegeneratePixelSize),
        pixel_size > 0 ==> res is Ok,
        res matches Ok(small) ==> {
            &&& small@ == pixelated(image@, pixel_size as nat)
            &&& small@.wf()
            &&& small@.width <= image@.width
            &&& small@.height <= image@.height
            &&& drawn_from(small@.pixels, image@.pixels)
            &&& small@.width == image@.width && small@.height == image@.height ==> small@
                == image@
        },
{
    if pixel_size == 0 {
        return Err(RetroError::DegeneratePixelSize);
    }
    let width = image.width();
    let height = image.height();
    let new_width = blocks_along(width, pixel_size);
    let new_height = blocks_along(height, pixel_size);
    proof {
        lemma_smaller_shape_is_valid(width as int, height as int, new_width as int, new_height as int);
        lemma_smaller_shape_is_valid(width as int, height as int, width as int, new_height as int);
        lemma_colors_of_bytes(image@.pixels);
    }
    let raw = image.to_raw();
    let out = resize_raw(raw, width, height, new_width, new_height, Filter::Nearest);
    Ok(Image::from_raw(new_width, new_height, out).unwrap())
}

/// Enlarges an image to `width` by `height` with a smooth Lanczos filter,
/// which blends neighbouring pixels and so softens the edges between
/// blocks. Asked for the size the image has, it returns the image as it is,
/// and an image of a single colour stays of that colour. Refused is a size
/// that no image can have, one that is smaller than the image on either
/// side, and one with a side longer than `MAX_SMOOTH_SIDE`.
pub fn upscale(image: &Image, width: u32, height: u32) -> (res: Option<Image>)
    ensures
        res is Some <==> valid_shape(width as int, height as int) && can_enlarge(
            image@.width as int,
            image@.height as int,
            width as int,
            height as int,
        ),
        res matches Some(large) ==> {
            &&& large@.wf()
            &&& large@.width == width
            &&& large@.height == height
            &&& width == image@.width && height == image@.height ==> large@ == image@
            &&& forall|color: Color| #[trigger]
                is_solid(image@.pixels, color) ==> is_solid(large@.pixels, color)
        },
{
    let old_width = image.width();
    let old_height = image.height();
    if !is_valid_shape(width, height) || width < old_width || height < old_height || width
        > MAX_SMOOTH_SIDE || height > MAX_SMOOTH_SIDE {
        return None;
    }
    proof {
        lemma_smaller_shape_is_valid(width as int, height as int, old_width as int, height as int);
        lemma_colors_of_bytes(image@.pixels);
    }
    let raw = image.to_raw();
    let out = resize_raw(raw, old_width, old_height, width, height, Filter::Lanczos3);
    Image::from_raw(width, height, out)
}

/// Pixels drawn from a source of a single colour all have that colour.
pub proof fn lemma_drawn_from_solid(pixels: Seq<Color>, source: Seq<Color>, color: Color)
    requires
        drawn_from(pixels, source),
        is_solid(source, color),
    ensures
        is_solid(pixels, color),
{
    assert forall|i: int| 0 <= i < pixels.len() implies pixels[i] == color by {
        let at = choose|k: int| 0 <= k < source.len() && source[k] == pixels[i];
        assert(source[at] == color);
    }
}

} // verus!
