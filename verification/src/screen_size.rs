//! The size of the display, fixed for the lifetime of a dispatcher.

use vstd::prelude::*;

verus! {

/// The pixel width and height of the display. Both are positive.
#[derive(Debug, Clone, Copy)]
pub struct ScreenGeometry {
    width: i32,
    height: i32,
}

impl ScreenGeometry {
    #[verifier::type_invariant]
    spec fn positive(self) -> bool {
        self.width > 0 && self.height > 0
    }

    /// The width in pixels.
    pub closed spec fn spec_width(self) -> i32 {
        self.width
    }

    /// The height in pixels.
    pub closed spec fn spec_height(self) -> i32 {
        self.height
    }

    /// A geometry of the given size, or `None` unless both dimensions are
    /// positive.
    pub fn new(width: i32, height: i32) -> (geometry: Option<ScreenGeometry>)
        ensures
            geometry is Some <==> width > 0 && height > 0,
            geometry matches Some(g) ==> g.spec_width() == width && g.spec_height() == height,
    {
        if width > 0 && height > 0 {
            Some(ScreenGeometry { width, height })
        } else {
            None
        }
    }

    #[verifier::when_used_as_spec(spec_width)]
    pub fn width(self) -> (width: i32)
        ensures
            width == self.spec_width(),
            width > 0,
    {
        proof {
            use_type_invariant(&self);
        }
        self.width
    }

    #[verifier::when_used_as_spec(spec_height)]
    pub fn height(self) -> (height: i32)
        ensures
            height == self.spec_height(),
            height > 0,
    {
        proof {
            use_type_invariant(&self);
        }
        self.height
    }
}

/// The width and height of the display, in that order.
pub fn get_screen_size(geometry: &ScreenGeometry) -> (size: (i32, i32))
    ensures
        size.0 == geometry.spec_width(),
        size.1 == geometry.spec_height(),
        size.0 > 0,
        size.1 > 0,
{
    (geometry.width(), geometry.height())
}

} // verus!
