//! The area of a rectangle with whole-pixel sides.

use vstd::prelude::*;

verus! {

/// The area, in square pixels, of a rectangle `width` pixels wide and
/// `height` pixels high. The product has to fit in a `u32`.
pub fn area(width: u32, height: u32) -> (pixels: u32)
    requires
        width * height <= u32::MAX,
    ensures
        pixels == width * height,
{
    width * height
}

} // verus!
