//! Plain-value models of the platform window: its identity and its
//! reported physical pixel size.

use vstd::prelude::*;

verus! {

/// Stable identity of a platform window, comparable for equality.
#[derive(Clone, Copy, PartialEq, Eq, Structural, Debug)]
pub struct WindowId(pub u64);

/// A physical pixel size as reported by the platform window.
#[derive(Clone, Copy, PartialEq, Eq, Structural, Debug)]
pub struct PhysicalSize {
    pub width: u32,
    pub height: u32,
}

impl PhysicalSize {
    /// A size can be presented to only when both dimensions are strictly
    /// positive.
    pub open spec fn wf(self) -> bool {
        self.width > 0 && self.height > 0
    }
}

} // verus!
