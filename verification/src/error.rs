//! The ways in which a run can fail before anything is written.

use vstd::prelude::*;

verus! {

/// What is wrong with the arguments of an invocation.
#[derive(Clone, Copy, Debug, PartialEq, Eq, Structural)]
pub enum UsageError {
    /// No image path was given, or more arguments than are understood.
    ArgumentCount,
    /// The pixel size is not a number.
    PixelSize,
}

/// Why no image was produced. None of these is recovered from: the run
/// ends, and nothing is written.
#[derive(Clone, Copy, Debug, PartialEq, Eq, Structural)]
pub enum RetroError {
    /// The arguments make no valid invocation.
    Usage(UsageError),
    /// No predefined palette has the key that was asked for.
    PaletteNotFound,
    /// The pixel size is zero, which is no block size at all.
    DegeneratePixelSize,
    /// A side of the image is longer than the smooth enlargement can
    /// place its samples on.
    ImageTooLarge,
}

impl RetroError {
    /// The text of the message for this error.
    pub open spec fn message_text(self) -> Seq<char> {
        match self {
            RetroError::Usage(UsageError::ArgumentCount) => "expected <image_path> [pixel_size] [palette]"@,
            RetroError::Usage(UsageError::PixelSize) => "pixel_size must be a valid number"@,
            RetroError::PaletteNotFound => "palette not found"@,
            RetroError::DegeneratePixelSize => "pixel_size must be at least 1"@,
            RetroError::ImageTooLarge => "the image has a side of more than 1048576 pixels"@,
        }
    }

    /// A message for the person who started the run.
    pub fn message(&self) -> (text: String)
        ensures
            text@ == self.message_text(),
    {
        match self {
            RetroError::Usage(UsageError::ArgumentCount) => "expected <image_path> [pixel_size] [palette]".to_owned(),
            RetroError::Usage(UsageError::PixelSize) => "pixel_size must be a valid number".to_owned(),
            RetroError::PaletteNotFound => "palette not found".to_owned(),
            RetroError::DegeneratePixelSize => "pixel_size must be at least 1".to_owned(),
            RetroError::ImageTooLarge => "the image has a side of more than 1048576 pixels".to_owned(),
        }
    }
}

} // verus!
