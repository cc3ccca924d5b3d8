//! What a command line asks for.
//!
//! The arguments are `<image_path> [pixel_size] [palette]`, after the
//! program's own name; `--help` or `-h` in first place asks for the usage
//! text instead.

use vstd::prelude::*;
use vstd::string::StrSliceExecFns;
use crate::error::{RetroError, UsageError};

verus! {

/// The pixel size of a run that names none. Zero is no valid block size:
/// such a run is refused when it comes to pixelating.
pub const DEFAULT_PIXEL_SIZE: u32 = 0;

/// The key of the palette of a run that names none.
pub open spec fn default_palette_key() -> Seq<char> {
    "pico8"@
}

/// What the command line asks for.
#[derive(Debug)]
pub enum Invocation {
    /// Print the usage text and end successfully.
    Help,
    /// Stylize the image at `image_path`.
    Run { image_path: String, pixel_size: u32, palette_key: String },
}

/// An invocation, mathematically.
pub enum InvocationView {
    Help,
    Run { image_path: Seq<char>, pixel_size: u32, palette_key: Seq<char> },
}

impl View for Invocation {
    type V = InvocationView;

    open spec fn view(&self) -> InvocationView {
        match self {
            Invocation::Help => InvocationView::Help,
            Invocation::Run { image_path, pixel_size, palette_key } => InvocationView::Run {
                image_path: image_path@,
                pixel_size: *pixel_size,
                palette_key: palette_key@,
            },
        }
    }
}

/// Whether `c` is one of the ten decimal digits.
pub open spec fn is_digit(c: char) -> bool {
    '0' <= c <= '9'
}

/// The number that a string of decimal digits denotes.
pub open spec fn decimal_value(digits: Seq<char>) -> nat
    decreases digits.len(),
{
    if digits.len() == 0 {
        0
    } else {
        10 * decimal_value(digits.drop_last()) + (digits.last() as nat - '0' as nat) as nat
    }
}

/// Whether every character of `digits` is a decimal digit.
pub open spec fn all_digits(digits: Seq<char>) -> bool {
    forall|i: int| 0 <= i < digits.len() ==> is_digit(#[trigger] digits[i])
}

/// The text without the `+` that it may start with.
pub open spec fn without_sign(text: Seq<char>) -> Seq<char> {
    if text.len() > 0 && text[0] == '+' {
        text.skip(1)
    } else {
        text
    }
}

/// The pixel size that `text` denotes: an optional `+`, then one or more
/// decimal digits and nothing else, of a value that fits in 32 bits.
pub open spec fn parsed_pixel_size(text: Seq<char>) -> Option<u32> {
    let digits = without_sign(text);
    if digits.len() > 0 && all_digits(digits) && decimal_value(digits) <= u32::MAX {
        Some(decimal_value(digits) as u32)
    } else {
        None
    }
}

/// Appending digits never makes the value smaller.
proof fn lemma_decimal_value_grows(digits: Seq<char>, n: int)
    requires
        0 <= n <= digits.len(),
    ensures
        decimal_value(digits.take(n)) <= decimal_value(digits),
    decreases digits.len(),
{
    if n == digits.len() {
        assert(digits.take(n) == digits);
    } else {
        assert(digits.drop_last().take(n) == digits.take(n));
        lemma_decimal_value_grows(digits.drop_last(), n);
    }
}

/// Reads a pixel size from its text.
pub fn parse_pixel_size(text: &str) -> (res: Option<u32>)
    ensures
        res == parsed_pixel_size(text@),
{
    let length = text.unicode_len();
    let start: usize = if length > 0 && text.get_char(0) == '+' {
        1
    } else {
        0
    };
    let ghost digits = without_sign(text@);
    assert(digits == text@.skip(start as int));
    if start == length {
        return None;
    }
    let mut value: u64 = 0;
    let mut i: usize = start;
    while i < length
        invariant
            start <= i <= length,
            length == text@.len(),
            digits == text@.skip(start as int),
            digits == without_sign(text@),
            forall|k: int| 0 <= k < i - start ==> is_digit(#[trigger] digits[k]),
            value == decimal_value(digits.take(i - start)),
            value <= u32::MAX,
        decreases length - i,
    {
        let c = text.get_char(i);
        assert(c == digits[i - start]);
        if !('0' <= c && c <= '9') {
            return None;
        }
        assert(digits.take(i - start + 1).drop_last() == digits.take(i - start));
        value = value * 10 + (c as u64 - '0' as u64);
        if value > u32::MAX as u64 {
            proof {
                lemma_decimal_value_grows(digits, i - start + 1);
            }
            return None;
        }
        i += 1;
    }
    assert(digits.take(i - start) == digits);
    Some(value as u32)
}

/// The view of each argument.
pub open spec fn texts(args: Seq<String>) -> Seq<Seq<char>> {
    Seq::new(args.len(), |i: int| args[i]@)
}

/// What the arguments `args` ask for, the program's own name being the
/// first of them.
///
/// `--help` or `-h` right after the name asks for help, whatever follows.
/// Otherwise there must be one to three arguments after the name: the image
/// path, then optionally the pixel size, then optionally the palette key.
pub open spec fn parsed_arguments(args: Seq<Seq<char>>) -> Result<InvocationView, RetroError> {
    if args.len() > 1 && (args[1] == "--help"@ || args[1] == "-h"@) {
        Ok(InvocationView::Help)
    } else if args.len() < 2 || args.len() > 4 {
        Err(RetroError::Usage(UsageError::ArgumentCount))
    } else {
        let size = if args.len() >= 3 {
            parsed_pixel_size(args[2])
        } else {
            Some(DEFAULT_PIXEL_SIZE)
        };
        match size {
            Some(pixel_size) => Ok(
                InvocationView::Run {
                    image_path: args[1],
                    pixel_size,
                    palette_key: if args.len() == 4 {
                        args[3]
                    } else {
                        default_palette_key()
                    },
                },
            ),
            None => Err(RetroError::Usage(UsageError::PixelSize)),
        }
    }
}

/// Works out what a command line asks for. Nothing is printed and nothing
/// is opened: that is for the caller.
pub fn parse_arguments(args: &Vec<String>) -> (res: Result<Invocation, RetroError>)
    ensures
        match res {
            Ok(invocation) => parsed_arguments(texts(args@)) == Ok::<InvocationView, RetroError>(
                invocation@,
            ),
            Err(error) => parsed_arguments(texts(args@)) == Err::<InvocationView, RetroError>(error),
        },
{
    let count = args.len();
    if count > 1 && (args[1] == "--help".to_owned() || args[1] == "-h".to_owned()) {
        return Ok(Invocation::Help);
    }
    if count < 2 || count > 4 {
        return Err(RetroError::Usage(UsageError::ArgumentCount));
    }
    let pixel_size = if count >= 3 {
        match parse_pixel_size(args[2].as_str()) {
            Some(pixel_size) => pixel_size,
            None => {
                return Err(RetroError::Usage(UsageError::PixelSize));
            },
        }
    } else {
        DEFAULT_PIXEL_SIZE
    };
    let palette_key = if count == 4 {
        args[3].clone()
    } else {
        "pico8".to_owned()
    };
    Ok(Invocation::Run { image_path: args[1].clone(), pixel_size, palette_key })
}

} // verus!
