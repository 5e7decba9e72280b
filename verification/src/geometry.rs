//! Geometry of the centred square that is cut out of a source image.

use vstd::prelude::*;
use crate::error::{Failure, ThumbnailError};

verus! {

/// An axis-aligned square inside a source image.
#[derive(Clone, Copy, Debug, PartialEq, Eq, Structural)]
pub struct CropRegion {
    pub left: u32,
    pub top: u32,
    pub side: u32,
}

impl CropRegion {
    /// The square is not empty and lies inside an image of the given size.
    pub open spec fn fits(&self, width: u32, height: u32) -> bool {
        &&& self.side > 0
        &&& self.left + self.side <= width
        &&& self.top + self.side <= height
    }

    /// Exec counterpart of [`CropRegion::fits`].
    pub fn fits_within(&self, width: u32, height: u32) -> (ok: bool)
        ensures
            ok == self.fits(width, height),
    {
        self.side > 0 && self.side <= width && self.left <= width - self.side
            && self.side <= height && self.top <= height - self.side
    }
}

/// The smaller of the two dimensions.
pub open spec fn shorter_side(width: u32, height: u32) -> u32 {
    if width <= height {
        width
    } else {
        height
    }
}

/// The largest centred square of a `width` x `height` image. An odd margin is
/// split so that the extra pixel is dropped on the right or at the bottom.
pub open spec fn centered_square(width: u32, height: u32) -> CropRegion {
    let side = shorter_side(width, height);
    CropRegion {
        left: ((width - side) / 2) as u32,
        top: ((height - side) / 2) as u32,
        side,
    }
}

/// Computes the centred square crop of a `width` x `height` image.
///
/// The result depends on the two arguments alone: it is the value of the
/// spec function `centered_square` on them.
pub fn crop(width: u32, height: u32) -> (region: CropRegion)
    ensures
        region == centered_square(width, height),
        region.side == shorter_side(width, height),
        region.left == (width - region.side) / 2,
        region.top == (height - region.side) / 2,
        width > 0 && height > 0 ==> region.fits(width, height),
{
    let side: u32 = if width <= height { width } else { height };
    CropRegion { left: (width - side) / 2, top: (height - side) / 2, side }
}

/// Computes the centred square crop of an image that has pixels, and refuses
/// an image without any: there is no square to cut from it.
pub fn checked_crop(width: u32, height: u32) -> (cropped: Result<CropRegion, ThumbnailError>)
    ensures
        width == 0 || height == 0 ==> cropped is Err && cropped->Err_0@ == Failure::CropGeometry,
        width > 0 && height > 0 ==> cropped == Ok::<CropRegion, ThumbnailError>(
            centered_square(width, height),
        ) && centered_square(width, height).fits(width, height),
{
    if width == 0 || height == 0 {
        Err(ThumbnailError::CropGeometry)
    } else {
        Ok(crop(width, height))
    }
}

/// The centred square touches both edges along the shorter dimension, and
/// along the longer one the margin after it is the margin before it, or one
/// pixel more.
pub proof fn square_is_centered(width: u32, height: u32)
    ensures
        ({
            let region = centered_square(width, height);
            let right = width - region.left - region.side;
            let bottom = height - region.top - region.side;
            &&& region.left == 0 || region.top == 0
            &&& region.left <= right <= region.left + 1
            &&& region.top <= bottom <= region.top + 1
            &&& region.side == width || region.side == height
            &&& region.side <= width && region.side <= height
        }),
{
}

} // verus!
