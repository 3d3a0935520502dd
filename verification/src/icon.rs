//! Validated RGBA icon buffers.
//!
//! An icon is constructed only through a validating factory: the checks run
//! in a fixed order (zero dimensions, divisibility by four, multiplication
//! overflow, dimension mismatch) and a value that exists is guaranteed to
//! have a buffer length consistent with its dimensions.

use vstd::prelude::*;
use vstd::string::StringExecFns;

use crate::util::{dec_digits, u64_to_string};

verus! {

/// Bytes per tightly packed RGBA pixel.
pub const PIXEL_SIZE: usize = 4;

/// An error produced when using `from_rgba` with invalid arguments.
#[derive(Debug, Clone, Copy, PartialEq, Eq, Structural)]
pub enum BadIcon {
    /// Produced when the length of the `rgba` argument isn't divisible by 4,
    /// thus `rgba` can't be safely interpreted as 32bpp RGBA pixels.
    ByteCountNotDivisibleBy4 { byte_count: usize },
    /// Produced when the number of pixels (`rgba.len() / 4`) isn't equal to
    /// `width * height`. At least one of the arguments is incorrect.
    DimensionsVsPixelCount { width: u32, height: u32, width_x_height: usize, pixel_count: usize },
    /// Produced when the provided icon width or height is equal to zero.
    DimensionsZero { width: u32, height: u32 },
    /// Produced when `width * height` cannot be represented without overflow.
    DimensionsMultiplyOverflow { width: u32, height: u32 },
}

impl BadIcon {
    /// The human-readable description of this error.
    pub open spec fn message_spec(self) -> Seq<char> {
        match self {
            BadIcon::ByteCountNotDivisibleBy4 { byte_count } => "the length of the rgba argument ("@
                + dec_digits(byte_count as nat)
                + ") is not divisible by 4, so it cannot be interpreted as 32bpp RGBA pixels"@,
            BadIcon::DimensionsVsPixelCount { width, height, width_x_height, pixel_count } => "the specified dimensions ("@
                + dec_digits(width as nat) + "x"@ + dec_digits(height as nat)
                + ") do not match the number of pixels supplied by the rgba argument ("@
                + dec_digits(pixel_count as nat) + "); for those dimensions, the expected pixel count is "@
                + dec_digits(width_x_height as nat),
            BadIcon::DimensionsZero { width, height } => "the specified dimensions ("@
                + dec_digits(width as nat) + "x"@ + dec_digits(height as nat)
                + ") must be greater than zero"@,
            BadIcon::DimensionsMultiplyOverflow { width, height } => "the specified dimensions multiplication has overflowed ("@
                + dec_digits(width as nat) + "x"@ + dec_digits(height as nat) + ")"@,
        }
    }

    /// Renders the error as text; the numbers are the offending arguments.
    pub fn message(&self) -> (s: String)
        ensures
            s@ == self.message_spec(),
    {
        match self {
            BadIcon::ByteCountNotDivisibleBy4 { byte_count } => {
                let mut s = String::new();
                s.append("the length of the rgba argument (");
                s.append(u64_to_string(*byte_count as u64).as_str());
                s.append(") is not divisible by 4, so it cannot be interpreted as 32bpp RGBA pixels");
                proof {
                    assert(s@ =~= self.message_spec());
                }
                s
            },
            BadIcon::DimensionsVsPixelCount { width, height, width_x_height, pixel_count } => {
                let mut s = String::new();
                s.append("the specified dimensions (");
                s.append(u64_to_string(*width as u64).as_str());
                s.append("x");
                s.append(u64_to_string(*height as u64).as_str());
                s.append(") do not match the number of pixels supplied by the rgba argument (");
                s.append(u64_to_string(*pixel_count as u64).as_str());
                s.append("); for those dimensions, the expected pixel count is ");
                s.append(u64_to_string(*width_x_height as u64).as_str());
                proof {
                    assert(s@ =~= self.message_spec());
                }
                s
            },
            BadIcon::DimensionsZero { width, height } => {
                let mut s = String::new();
                s.append("the specified dimensions (");
                s.append(u64_to_string(*width as u64).as_str());
                s.append("x");
                s.append(u64_to_string(*height as u64).as_str());
                s.append(") must be greater than zero");
                proof {
                    assert(s@ =~= self.message_spec());
                }
                s
            },
            BadIcon::DimensionsMultiplyOverflow { width, height } => {
                let mut s = String::new();
                s.append("the specified dimensions multiplication has overflowed (");
                s.append(u64_to_string(*width as u64).as_str());
                s.append("x");
                s.append(u64_to_string(*height as u64).as_str());
                s.append(")");
                proof {
                    assert(s@ =~= self.message_spec());
                }
                s
            },
        }
    }
}

/// The arguments of `from_rgba` describe a well-formed icon: both dimensions
/// are positive, the byte count is a whole number of 4-byte pixels, the pixel
/// count is representable, and it equals `width * height`.
pub open spec fn rgba_dimensions_ok(len: nat, width: u32, height: u32) -> bool {
    &&& width > 0
    &&& height > 0
    &&& len % 4 == 0
    &&& width * height <= usize::MAX
    &&& len / 4 == width * height
}

/// What validation of a `len`-byte buffer against the given dimensions
/// yields: `Ok` when `rgba_dimensions_ok` holds, otherwise the error of the
/// first failing check, in the fixed order zero-check, divisibility-check,
/// overflow-check, mismatch-check.
pub open spec fn rgba_check(len: nat, width: u32, height: u32) -> Result<(), BadIcon> {
    if width == 0 || height == 0 {
        Err(BadIcon::DimensionsZero { width, height })
    } else if len % 4 != 0 {
        Err(BadIcon::ByteCountNotDivisibleBy4 { byte_count: len as usize })
    } else if width * height > usize::MAX {
        Err(BadIcon::DimensionsMultiplyOverflow { width, height })
    } else if len / 4 != width * height {
        Err(
            BadIcon::DimensionsVsPixelCount {
                width,
                height,
                width_x_height: (width * height) as usize,
                pixel_count: (len / 4) as usize,
            },
        )
    } else {
        Ok(())
    }
}

/// An icon as a tightly packed 4-bytes-per-pixel RGBA buffer.
#[derive(Debug, Clone, PartialEq, Eq)]
pub struct RgbaIcon {
    pub rgba: Vec<u8>,
    pub width: u32,
    pub height: u32,
}

impl RgbaIcon {
    /// The stored buffer is consistent with the stored dimensions.
    pub open spec fn wf(self) -> bool {
        rgba_dimensions_ok(self.rgba@.len(), self.width, self.height)
    }

    /// Creates an icon from 32bpp RGBA data.
    ///
    /// The length of `rgba` must be divisible by 4, and `width * height`
    /// must equal `rgba.len() / 4`. Otherwise, this returns a `BadIcon`
    /// error; the checks run in the fixed order stated by the clauses below.
    pub fn from_rgba(rgba: Vec<u8>, width: u32, height: u32) -> (r: Result<RgbaIcon, BadIcon>)
        ensures
            r is Ok <==> rgba_dimensions_ok(rgba@.len(), width, height),
            r matches Ok(icon) ==> icon.rgba == rgba && icon.width == width && icon.height
                == height && icon.wf(),
            r matches Err(e) ==> rgba_check(rgba@.len(), width, height) == Err::<(), BadIcon>(e),
    {
        if width == 0 || height == 0 {
            return Err(BadIcon::DimensionsZero { width, height });
        }
        if rgba.len() % PIXEL_SIZE != 0 {
            return Err(BadIcon::ByteCountNotDivisibleBy4 { byte_count: rgba.len() });
        }
        let width_usize = width as usize;
        let height_usize = height as usize;
        let width_x_height = match width_usize.checked_mul(height_usize) {
            Some(v) => v,
            None => {
                return Err(BadIcon::DimensionsMultiplyOverflow { width, height });
            },
        };
        let pixel_count = rgba.len() / PIXEL_SIZE;
        if pixel_count != width_x_height {
            Err(BadIcon::DimensionsVsPixelCount { width, height, width_x_height, pixel_count })
        } else {
            Ok(RgbaIcon { rgba, width, height })
        }
    }
}

/// Reconstructing from the inputs of a successful construction always
/// succeeds again: the validity of the stored buffer and dimensions is
/// exactly the success condition of `from_rgba`, so a second call on
/// `(icon.rgba, icon.width, icon.height)` returns an identical icon.
pub proof fn lemma_from_rgba_idempotent(icon: RgbaIcon)
    requires
        icon.wf(),
    ensures
        rgba_dimensions_ok(icon.rgba@.len(), icon.width, icon.height),
        rgba_check(icon.rgba@.len(), icon.width, icon.height) is Ok,
{
}

/// For platforms without window icons: the input is validated all the same,
/// and then dropped.
#[derive(Debug, Clone, PartialEq, Eq, Structural)]
pub struct NoIcon;

impl NoIcon {
    /// Validates the input exactly as `RgbaIcon::from_rgba` does, then
    /// discards it.
    pub fn from_rgba(rgba: Vec<u8>, width: u32, height: u32) -> (r: Result<NoIcon, BadIcon>)
        ensures
            r is Ok <==> rgba_dimensions_ok(rgba@.len(), width, height),
            r matches Err(e) ==> rgba_check(rgba@.len(), width, height) == Err::<(), BadIcon>(e),
    {
        match RgbaIcon::from_rgba(rgba, width, height) {
            Ok(_) => Ok(NoIcon),
            Err(e) => Err(e),
        }
    }
}

/// An icon used for the window titlebar, taskbar, etc.
#[derive(Debug, Clone)]
pub struct Icon {
    pub inner: RgbaIcon,
}

impl Icon {
    /// Creates an icon from 32bpp RGBA data, with the validation and error
    /// order of `RgbaIcon::from_rgba`.
    pub fn from_rgba(rgba: Vec<u8>, width: u32, height: u32) -> (r: Result<Icon, BadIcon>)
        ensures
            r is Ok <==> rgba_dimensions_ok(rgba@.len(), width, height),
            r matches Ok(icon) ==> icon.inner.rgba == rgba && icon.inner.width == width
                && icon.inner.height == height && icon.inner.wf(),
            r matches Err(e) ==> rgba_check(rgba@.len(), width, height) == Err::<(), BadIcon>(e),
    {
        match RgbaIcon::from_rgba(rgba, width, height) {
            Ok(inner) => Ok(Icon { inner }),
            Err(e) => Err(e),
        }
    }
}

} // verus!
