use vstd::prelude::*;

verus! {

/// Size of a canvas in pixels.
#[derive(Clone, Copy, Debug, PartialEq, Eq, Structural)]
pub struct Size {
    /// Canvas width in pixels.
    pub width: u32,
    /// Canvas height in pixels.
    pub height: u32,
}

/// A dimension as the GPU takes it: never zero.
pub open spec fn at_least_one(v: u32) -> u32 {
    if v == 0 { 1 } else { v }
}

/// Raises a zero dimension to one and leaves every other value as it is.
pub fn clamp_dimension(v: u32) -> (r: u32)
    ensures
        r == at_least_one(v),
{
    if v == 0 { 1 } else { v }
}

impl Size {
    /// A size can configure a surface only if neither side is zero.
    pub open spec fn drawable(self) -> bool {
        self.width > 0 && self.height > 0
    }

    /// Tells whether a surface may be configured with this size.
    pub fn is_drawable(&self) -> (r: bool)
        ensures
            r == self.drawable(),
    {
        self.width > 0 && self.height > 0
    }
}

} // verus!
