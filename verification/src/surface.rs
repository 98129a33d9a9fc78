//! The size the window surface is configured with.
use vstd::prelude::*;

verus! {

/// The surface size: never zero in either direction, since a surface cannot be
/// configured with an empty side.
pub struct SurfaceSize {
    width: u32,
    height: u32,
}

impl SurfaceSize {
    #[verifier::type_invariant]
    spec fn positive(self) -> bool {
        self.width >= 1 && self.height >= 1
    }

    /// The configured width.
    pub closed spec fn width_spec(&self) -> u32 {
        self.width
    }

    /// The configured height.
    pub closed spec fn height_spec(&self) -> u32 {
        self.height
    }

    /// The size of a new surface for a window of `width` x `height` pixels: a side of
    /// zero (a minimized window) is taken as one.
    pub fn for_window(width: u32, height: u32) -> (s: Self)
        ensures
            s.width_spec() == (if width == 0 { 1 } else { width }),
            s.height_spec() == (if height == 0 { 1 } else { height }),
    {
        SurfaceSize {
            width: if width == 0 { 1 } else { width },
            height: if height == 0 { 1 } else { height },
        }
    }

    /// The configured width; at least one.
    pub fn width(&self) -> (w: u32)
        ensures
            w == self.width_spec(),
            w >= 1,
    {
        proof {
            use_type_invariant(self);
        }
        self.width
    }

    /// The configured height; at least one.
    pub fn height(&self) -> (h: u32)
        ensures
            h == self.height_spec(),
            h >= 1,
    {
        proof {
            use_type_invariant(self);
        }
        self.height
    }

    /// Follows a window resize.  A resize to an empty side is ignored, as the surface
    /// cannot take it; otherwise the size is taken over.  Returns whether the surface
    /// must be reconfigured.
    pub fn resize(&mut self, width: u32, height: u32) -> (changed: bool)
        ensures
            changed == (width > 0 && height > 0),
            changed ==> final(self).width_spec() == width && final(self).height_spec() == height,
            !changed ==> final(self).width_spec() == old(self).width_spec() && final(self).height_spec()
                == old(self).height_spec(),
    {
        proof {
            use_type_invariant(&*self);
        }
        if width > 0 && height > 0 {
            self.width = width;
            self.height = height;
            true
        } else {
            false
        }
    }
}

} // verus!
