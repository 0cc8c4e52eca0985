//! The axis-aligned bounding volume the fractal is evaluated over.

use vstd::prelude::*;
use crate::fixed::Fx;

verus! {

/// An axis-aligned 3-D box, given by its per-axis extremes.
///
/// The intended invariant is `min <= max` on every axis ([`Cube::wf`]).  A
/// violating box is not rejected anywhere: it silently yields empty or
/// inverted geometry downstream, never a panic.
#[derive(Clone, Copy, Debug, PartialEq, Eq, Structural)]
pub struct Cube {
    pub xmin: Fx,
    pub ymin: Fx,
    pub zmin: Fx,
    pub xmax: Fx,
    pub ymax: Fx,
    pub zmax: Fx,
}

impl Cube {
    /// Each axis runs from its minimum to its maximum.
    pub open spec fn wf(self) -> bool {
        &&& self.xmin.to_int() <= self.xmax.to_int()
        &&& self.ymin.to_int() <= self.ymax.to_int()
        &&& self.zmin.to_int() <= self.zmax.to_int()
    }

    /// Every coordinate is small enough for the slicing arithmetic.
    pub open spec fn bounded(self, m: int) -> bool {
        &&& -m <= self.xmin.to_int() <= m
        &&& -m <= self.ymin.to_int() <= m
        &&& -m <= self.zmin.to_int() <= m
        &&& -m <= self.xmax.to_int() <= m
        &&& -m <= self.ymax.to_int() <= m
        &&& -m <= self.zmax.to_int() <= m
    }
}

impl Default for Cube {
    /// The unit cube centered at the origin.
    fn default() -> (c: Cube)
        ensures
            c.xmin.to_int() == -32768 && c.xmax.to_int() == 32768,
            c.ymin.to_int() == -32768 && c.ymax.to_int() == 32768,
            c.zmin.to_int() == -32768 && c.zmax.to_int() == 32768,
            c.wf(),
    {
        Cube {
            xmin: Fx(-32768),
            ymin: Fx(-32768),
            zmin: Fx(-32768),
            xmax: Fx(32768),
            ymax: Fx(32768),
            zmax: Fx(32768),
        }
    }
}

} // verus!
