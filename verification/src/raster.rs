//! Raster images: a grid of colours with explicit width and height.

use vstd::prelude::*;
use crate::color::{rgb, Color};

verus! {

/// A grid of colours, stored row by row from the top left. Width and height
/// are at least one.
#[derive(Debug)]
pub struct Image {
    width: u32,
    height: u32,
    pixels: Vec<Color>,
}

/// What an image is, mathematically: its width, its height and its pixels
/// row by row, the pixel in column `x` of row `y` at index `y * width + x`.
pub struct ImageView {
    pub width: nat,
    pub height: nat,
    pub pixels: Seq<Color>,
}

/// The sizes an image can have: neither side is zero, and the image is small
/// enough to be resampled. Resampling holds every pixel as four 32-bit
/// floating-point channels, sixteen bytes in all, in one allocation, and no
/// allocation is larger than `isize::MAX` bytes.
pub open spec fn valid_shape(width: int, height: int) -> bool {
    &&& 1 <= width
    &&& 1 <= height
    &&& 16 * (width * height) <= isize::MAX
}

impl ImageView {
    /// The pixels fill the grid exactly, and the grid has a valid shape.
    pub open spec fn wf(self) -> bool {
        &&& valid_shape(self.width as int, self.height as int)
        &&& self.pixels.len() == self.width * self.height
    }
}

/// Channel `k` of a colour: red, green and blue are channels 0, 1 and 2.
pub open spec fn channel(color: Color, k: int) -> u8 {
    if k == 0 {
        color.r
    } else if k == 1 {
        color.g
    } else {
        color.b
    }
}

/// The pixels as interleaved bytes: red, green, blue of the first pixel,
/// then of the second, and so on.
pub open spec fn bytes_of(pixels: Seq<Color>) -> Seq<u8> {
    Seq::new(3 * pixels.len(), |k: int| channel(pixels[k / 3], k % 3))
}

/// The pixels that interleaved bytes stand for, three bytes to a pixel.
pub open spec fn colors_of(raw: Seq<u8>) -> Seq<Color> {
    Seq::new(raw.len() / 3, |i: int| rgb(raw[3 * i], raw[3 * i + 1], raw[3 * i + 2]))
}

/// Turning pixels into bytes and back gives the pixels again.
pub proof fn lemma_colors_of_bytes(pixels: Seq<Color>)
    ensures
        colors_of(bytes_of(pixels)) == pixels,
{
}

/// Every pixel of `pixels` has the colour `color`.
pub open spec fn is_solid(pixels: Seq<Color>, color: Color) -> bool {
    forall|i: int| 0 <= i < pixels.len() ==> #[trigger] pixels[i] == color
}

/// Whether an image can be `width` wide and `height` high.
pub fn is_valid_shape(width: u32, height: u32) -> (ok: bool)
    ensures
        ok == valid_shape(width as int, height as int),
{
    checked_area(width, height).is_some()
}

/// Whether `width` by `height` is a valid shape, and if so the number of
/// pixels.
fn checked_area(width: u32, height: u32) -> (area: Option<u64>)
    ensures
        area is Some <==> valid_shape(width as int, height as int),
        area matches Some(n) ==> n == width * height,
{
    if width == 0 || height == 0 {
        return None;
    }
    assert(width * height <= 0xffff_ffff * 0xffff_ffff) by (nonlinear_arith)
        requires
            width <= 0xffff_ffff,
            height <= 0xffff_ffff,
    ;
    let area: u64 = (width as u64) * (height as u64);
    let limit: u64 = (isize::MAX as u64) / 16;
    if area <= limit {
        Some(area)
    } else {
        None
    }
}

impl View for Image {
    type V = ImageView;

    closed spec fn view(&self) -> ImageView {
        ImageView { width: self.width as nat, height: self.height as nat, pixels: self.pixels@ }
    }
}

impl Image {
    #[verifier::type_invariant]
    spec fn fills_its_grid(self) -> bool {
        self@.wf()
    }

    /// Builds an image from its pixels, row by row. Refused are a side of
    /// zero, a shape too large to be resampled, and a number of pixels
    /// other than `width * height`.
    pub fn new(width: u32, height: u32, pixels: Vec<Color>) -> (res: Option<Image>)
        ensures
            res is Some <==> valid_shape(width as int, height as int) && pixels@.len() == width
                * height,
            res matches Some(image) ==> image@ == (ImageView {
                width: width as nat,
                height: height as nat,
                pixels: pixels@,
            }),
    {
        match checked_area(width, height) {
            Some(area) => {
                if pixels.len() as u64 == area {
                    Some(Image { width, height, pixels })
                } else {
                    None
                }
            },
            None => None,
        }
    }

    /// Builds an image from interleaved red, green and blue bytes, row by
    /// row. Refused are a side of zero, a shape too large to be resampled,
    /// and a number of bytes other than `3 * width * height`.
    pub fn from_raw(width: u32, height: u32, raw: Vec<u8>) -> (res: Option<Image>)
        ensures
            res is Some <==> valid_shape(width as int, height as int) && raw@.len() == 3 * (width
                * height),
            res matches Some(image) ==> image@ == (ImageView {
                width: width as nat,
                height: height as nat,
                pixels: colors_of(raw@),
            }),
    {
        let area = match checked_area(width, height) {
            Some(area) => area,
            None => {
                return None;
            },
        };
        if raw.len() as u64 != 3 * area {
            return None;
        }
        let count: usize = raw.len() / 3;
        let mut pixels: Vec<Color> = Vec::new();
        let mut i: usize = 0;
        while i < count
            invariant
                i <= count,
                raw@.len() == 3 * count <= usize::MAX,
                pixels@ == colors_of(raw@).take(i as int),
            decreases count - i,
        {
            pixels.push(Color::new(raw[3 * i], raw[3 * i + 1], raw[3 * i + 2]));
            i += 1;
        }
        assert(pixels@ == colors_of(raw@));
        Some(Image { width, height, pixels })
    }

    /// The pixels as interleaved red, green and blue bytes, row by row.
    pub fn to_raw(&self) -> (raw: Vec<u8>)
        ensures
            self@.wf(),
            raw@ == bytes_of(self@.pixels),
            raw@.len() == 3 * (self@.width * self@.height),
    {
        proof {
            use_type_invariant(self);
        }
        let mut raw: Vec<u8> = Vec::new();
        let mut i: usize = 0;
        while i < self.pixels.len()
            invariant
                i <= self.pixels@.len(),
                raw@ == bytes_of(self.pixels@).take(3 * i),
            decreases self.pixels@.len() - i,
        {
            let pixel = self.pixels[i];
            raw.push(pixel.r);
            raw.push(pixel.g);
            raw.push(pixel.b);
            i += 1;
        }
        raw
    }

    /// The number of columns.
    pub fn width(&self) -> (w: u32)
        ensures
            self@.wf(),
            w == self@.width,
    {
        proof {
            use_type_invariant(self);
        }
        self.width
    }

    /// The number of rows.
    pub fn height(&self) -> (h: u32)
        ensures
            self@.wf(),
            h == self@.height,
    {
        proof {
            use_type_invariant(self);
        }
        self.height
    }

    /// The pixels row by row.
    pub fn pixels(&self) -> (res: &[Color])
        ensures
            self@.wf(),
            res@ == self@.pixels,
    {
        proof {
            use_type_invariant(self);
        }
        self.pixels.as_slice()
    }

    /// The pixel in column `x` of row `y`, if the image has one there.
    pub fn get_pixel(&self, x: u32, y: u32) -> (res: Option<Color>)
        ensures
            res is Some <==> x < self@.width && y < self@.height,
            res matches Some(color) ==> color == self@.pixels[y * self@.width + x],
    {
        proof {
            use_type_invariant(self);
        }
        if x < self.width && y < self.height {
            assert(y * self.width + x < self.width * self.height) by (nonlinear_arith)
                requires
                    0 <= x < self.width,
                    0 <= y < self.height,
            ;
            let at: u64 = (y as u64) * (self.width as u64) + (x as u64);
            Some(self.pixels[at as usize])
        } else {
            None
        }
    }
}

impl Clone for Image {
    /// An independent copy of the same size with the same pixels.
    fn clone(&self) -> (res: Image)
        ensures
            res@ == self@,
    {
        proof {
            use_type_invariant(self);
        }
        let mut pixels: Vec<Color> = Vec::new();
        let mut i: usize = 0;
        while i < self.pixels.len()
            invariant
                i <= self.pixels@.len(),
                pixels@ == self.pixels@.take(i as int),
            decreases self.pixels@.len() - i,
        {
            pixels.push(self.pixels[i]);
            i += 1;
        }
        assert(pixels@ == self.pixels@);
        Image { width: self.width, height: self.height, pixels }
    }
}

} // verus!
