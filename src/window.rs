use vstd::prelude::*;

verus! {

/// The pixel extent of a window or a texture.
#[derive(Debug, Clone, Copy, PartialEq, Eq, Structural, Default)]
pub struct Size {
    pub width: u32,
    pub height: u32,
}

/// Anything that can report its current pixel extent.
pub trait HasSize {
    fn size(&self) -> Size;
}

impl Size {
    pub fn new(width: u32, height: u32) -> (r: Size)
        ensures
            r.width == width,
            r.height == height,
    {
        Size { width, height }
    }

    /// Whether `self` fits inside `other` on both axes.
    pub open spec fn spec_fits_within(self, other: Size) -> bool {
        self.width <= other.width && self.height <= other.height
    }
}

/// Whether a resize to `requested` is taken while the window is `current`.
///
/// Some platforms report a spurious, larger size right after the window
/// opens; a size that grows past the window's current inner size is ignored.
pub fn resize_accepted(current: Size, requested: Size) -> (r: bool)
    ensures
        r == requested.spec_fits_within(current),
{
    requested.width <= current.width && requested.height <= current.height
}

} // verus!
