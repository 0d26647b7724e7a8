//! Planar and spatial physics backends.
use vstd::prelude::*;
use crate::geometry::Vector3;

verus! {

/// How many coordinates the physics backend keeps.
#[derive(Debug, Clone, Copy, PartialEq, Eq, Structural)]
pub enum Dimensionality {
    Dim2,
    Dim3,
}

impl Dimensionality {
    /// `point` as a backend of this dimensionality has it: a planar backend
    /// keeps no third coordinate, which then reads as zero.
    pub open spec fn sees(self, point: Vector3) -> Vector3 {
        match self {
            Dimensionality::Dim2 => Vector3 { z: 0, ..point },
            Dimensionality::Dim3 => point,
        }
    }

    /// Drops from `point` what the backend does not keep.
    pub fn confine(self, point: Vector3) -> (seen: Vector3)
        ensures
            seen == self.sees(point),
    {
        match self {
            Dimensionality::Dim2 => Vector3 { x: point.x, y: point.y, z: 0 },
            Dimensionality::Dim3 => point,
        }
    }
}

} // verus!
