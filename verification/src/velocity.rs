//! The velocity a patrol asks of its body.
use vstd::prelude::*;
use crate::geometry::Offset3;

verus! {

/// The vector of length `speed` that points along `toward`.
///
/// Normalising a lattice displacement leaves the lattice, so the direction is
/// kept as the displacement itself and the length beside it.  Where `toward`
/// leads nowhere there is no direction, and the velocity is the zero vector.
#[derive(Clone, Copy, Debug, PartialEq, Eq, Structural)]
pub struct Velocity {
    pub toward: Offset3,
    pub speed: u32,
}

impl Velocity {
    /// Whether this is the zero vector.
    pub open spec fn is_zero(self) -> bool {
        self.speed == 0 || self.toward.is_zero()
    }

    /// The square of the magnitude: `speed` squared, unless this is the zero
    /// vector.
    pub open spec fn magnitude_sq(self) -> int {
        if self.is_zero() {
            0
        } else {
            self.speed * self.speed
        }
    }

    /// Whether the body is asked to stay where it is.
    pub fn is_stationary(&self) -> (still: bool)
        ensures
            still == self.is_zero(),
    {
        self.speed == 0 || (self.toward.dx == 0 && self.toward.dy == 0 && self.toward.dz == 0)
    }
}

} // verus!
