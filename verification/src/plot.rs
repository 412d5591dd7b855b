//! The extents of the plotted volume.

use vstd::prelude::*;

verus! {

/// The box that is plotted: it reaches from the origin to `(x, y, z)`, each
/// in thousandths of the plot's unit length.
#[derive(Clone, Copy, Debug, PartialEq, Eq, Structural)]
pub struct Bounds {
    pub x: i32,
    pub y: i32,
    pub z: i32,
}

impl Bounds {
    pub fn new(x: i32, y: i32, z: i32) -> (b: Self)
        ensures
            b == (Bounds { x, y, z }),
    {
        Bounds { x, y, z }
    }

    /// The largest of the three extents.
    pub open spec fn spec_max(&self) -> int {
        if self.x >= self.y && self.x >= self.z {
            self.x as int
        } else if self.y >= self.z {
            self.y as int
        } else {
            self.z as int
        }
    }

    /// The largest of the three extents.
    pub fn max(&self) -> (m: i32)
        ensures
            m == self.spec_max(),
            m >= self.x && m >= self.y && m >= self.z,
            m == self.x || m == self.y || m == self.z,
    {
        if self.x >= self.y && self.x >= self.z {
            self.x
        } else if self.y >= self.z {
            self.y
        } else {
            self.z
        }
    }
}

} // verus!
