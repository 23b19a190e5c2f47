//! Plain integer geometry shared by the canvas and the rasterization steps.

use vstd::prelude::*;

verus! {

/// A width and a height in whole pixels.
#[derive(Clone, Copy, Debug, PartialEq, Eq, Structural)]
pub struct Size {
    pub width: u32,
    pub height: u32,
}

/// An axis-aligned rectangle of whole pixels: an origin and a size.
#[derive(Clone, Copy, Debug, PartialEq, Eq, Structural)]
pub struct IntRect {
    pub x: i64,
    pub y: i64,
    pub width: i64,
    pub height: i64,
}

/// The pixel rectangle that a native engine reports for a glyph texture, by its four edges.
#[derive(Clone, Copy, Debug, PartialEq, Eq, Structural)]
pub struct TextureBounds {
    pub left: i32,
    pub top: i32,
    pub right: i32,
    pub bottom: i32,
}

/// Trusted: `euclid::Size2D::<i32>::to_u32`, which casts each component with
/// `NumCast` and unwraps. For components that are not negative the cast keeps
/// the value; a negative component makes it panic, so those are left out.
#[verifier::external_body]
fn size_to_u32(width: i32, height: i32) -> (size: Size)
    requires
        width >= 0,
        height >= 0,
    ensures
        size.width == width,
        size.height == height,
{
    let converted = euclid::Size2D::<i32>::new(width, height).to_u32();
    Size { width: converted.width, height: converted.height }
}

impl TextureBounds {
    /// The edges are ordered and the extents fit a signed 32-bit integer.
    pub open spec fn well_formed(&self) -> bool {
        &&& self.left <= self.right
        &&& self.top <= self.bottom
        &&& self.right - self.left <= i32::MAX
        &&& self.bottom - self.top <= i32::MAX
    }

    /// Tests `well_formed`.
    pub fn is_well_formed(&self) -> (ok: bool)
        ensures
            ok == self.well_formed(),
    {
        let width: i64 = self.right as i64 - self.left as i64;
        let height: i64 = self.bottom as i64 - self.top as i64;
        0 <= width && width <= 0x7fff_ffff && 0 <= height && height <= 0x7fff_ffff
    }

    /// The extent of the rectangle: `right - left` by `bottom - top`.
    pub fn size(&self) -> (size: Size)
        requires
            self.well_formed(),
        ensures
            size.width == self.right - self.left,
            size.height == self.bottom - self.top,
    {
        size_to_u32(self.right - self.left, self.bottom - self.top)
    }
}

} // verus!
