use vstd::prelude::*;

use crate::geometry::GpuHandles;

verus! {

/// The lazily-created GPU resource slot of one shape instance. The slot is
/// empty until the first draw's upload completes; from then on it memoizes
/// the handle pair unchanged for the rest of the instance's life. Write-once:
/// `install` is permitted only on an empty slot.
pub struct GeometryResource {
    slot: Option<GpuHandles>,
}

impl GeometryResource {
    /// Whether the GPU handle pair has been created and recorded.
    pub closed spec fn initialized(&self) -> bool {
        self.slot is Some
    }

    /// The memoized handle pair, meaningful once `initialized`.
    pub closed spec fn stored(&self) -> GpuHandles {
        match self.slot {
            Some(h) => h,
            None => GpuHandles { buffer: 0, array: 0 },
        }
    }

    /// A fresh, empty resource slot.
    pub fn new() -> (r: GeometryResource)
        ensures
            !r.initialized(),
    {
        GeometryResource { slot: None }
    }

    /// The memoized handle pair, or `None` while the resources do not exist.
    pub fn get(&self) -> (r: Option<GpuHandles>)
        ensures
            r is Some <==> self.initialized(),
            r matches Some(h) ==> h == self.stored(),
    {
        self.slot
    }

    /// Record the freshly created handle pair, exactly once per slot.
    pub fn install(&mut self, handles: GpuHandles)
        requires
            !old(self).initialized(),
        ensures
            final(self).initialized(),
            final(self).stored() == handles,
    {
        self.slot = Some(handles);
    }
}

} // verus!
