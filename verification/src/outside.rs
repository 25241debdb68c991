//! The calls into nalgebra and image, with what is assumed of each.
use crate::texture::rows_reversed;
use vstd::prelude::*;

verus! {

/// `nalgebra::min`, which hands its arguments to `std::cmp::min`: the
/// smaller of the two.
#[verifier::external_body]
pub(crate) fn min_usize(a: usize, b: usize) -> (r: usize)
    ensures
        r == if a <= b { a } else { b },
{
    nalgebra::min(a, b)
}

/// `nalgebra::clamp`: `min` unless `val` is above it, and then `val` if it
/// is below `max`, else `max`. The bounds are not required to be ordered.
#[verifier::external_body]
pub(crate) fn clamp_i32(val: i32, min: i32, max: i32) -> (r: i32)
    ensures
        r == if val > min { if val < max { val } else { max } } else { min },
{
    nalgebra::clamp(val, min, max)
}

/// `image::imageops::flip_vertical`, on the 8-bit RGBA image that
/// `ImageBuffer::from_raw` makes of `bytes`, and `into_raw` on what it
/// returns. `from_raw` takes a buffer that is long enough for the extent,
/// where the extent's byte count can be computed at all: that is so for
/// an image with at least one pixel whose bytes a buffer holds. The flip
/// copies the pixel at column `x` of row `y` to column `x` of row
/// `height - 1 - y` of a new image of the same extent.
#[verifier::external_body]
pub(crate) fn flip_rows(width: u32, height: u32, bytes: Vec<u8>) -> (flipped: Option<Vec<u8>>)
    requires
        width > 0,
        height > 0,
        bytes.len() == 4 * width * height,
    ensures
        flipped is Some,
        flipped.unwrap()@ == rows_reversed(bytes@, 4 * width, height as int),
{
    let picture = image::RgbaImage::from_raw(width, height, bytes)?;
    Some(image::imageops::flip_vertical(&picture).into_raw())
}

} // verus!
