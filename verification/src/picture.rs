//! The picture a mapped image is created from.

use vstd::prelude::*;

use crate::display::Display;

verus! {

/// A synchronized picture: a hardware surface whose content is known to be
/// ready for reading or writing, created on a given display.
///
/// That the hardware operation producing the surface content has completed is
/// the caller's obligation, discharged before a value of this type is made:
/// mapping an unsynchronized surface is undefined at the native level, and
/// this layer does not check it.
pub struct Picture {
    /// The handle of the display the surface was created on.
    display_handle: u64,
    /// The native identifier of the underlying surface.
    surface_id: u32,
}

impl Picture {
    /// The handle of the display the surface was created on.
    pub closed spec fn spec_display_handle(&self) -> u64 {
        self.display_handle
    }

    /// The native identifier of the underlying surface.
    pub closed spec fn spec_surface_id(&self) -> u32 {
        self.surface_id
    }

    /// A synchronized picture over the surface `surface_id` of `display`.
    pub fn new(display: &Display, surface_id: u32) -> (r: Picture)
        ensures
            r.spec_display_handle() == display.spec_handle(),
            r.spec_surface_id() == surface_id,
    {
        Picture { display_handle: display.handle(), surface_id }
    }

    /// The handle of the display the surface was created on.
    pub fn display_handle(&self) -> (r: u64)
        ensures
            r == self.spec_display_handle(),
    {
        self.display_handle
    }

    /// The native identifier of the underlying surface.
    pub fn surface_id(&self) -> (r: u32)
        ensures
            r == self.spec_surface_id(),
    {
        self.surface_id
    }
}

} // verus!
