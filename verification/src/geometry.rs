//! Lattice points and the displacements between them.
use vstd::prelude::*;

verus! {

/// A point of the lattice: a position or a waypoint.
#[derive(Clone, Copy, Debug, PartialEq, Eq, Structural)]
pub struct Vector3 {
    pub x: i32,
    pub y: i32,
    pub z: i32,
}

/// The displacement from one lattice point to another.
///
/// Its components are wide enough for the difference of any two points.
#[derive(Clone, Copy, Debug, PartialEq, Eq, Structural)]
pub struct Offset3 {
    pub dx: i64,
    pub dy: i64,
    pub dz: i64,
}

/// The square of the distance covered in `delta_time` ticks at `speed`.
pub open spec fn reach_sq(delta_time: int, speed: int) -> int {
    (delta_time * speed) * (delta_time * speed)
}

impl Vector3 {
    /// The displacement that leads from `origin` to `self`.
    pub open spec fn minus(self, origin: Vector3) -> Offset3 {
        Offset3 {
            dx: (self.x - origin.x) as i64,
            dy: (self.y - origin.y) as i64,
            dz: (self.z - origin.z) as i64,
        }
    }

    /// The point with the given coordinates.
    pub fn new(x: i32, y: i32, z: i32) -> (point: Vector3)
        ensures
            point == (Vector3 { x, y, z }),
    {
        Vector3 { x, y, z }
    }

    /// The displacement that leads from `self` to `target`.
    pub fn offset_to(&self, target: &Vector3) -> (offset: Offset3)
        ensures
            offset == target.minus(*self),
            offset.dx == target.x - self.x,
            offset.dy == target.y - self.y,
            offset.dz == target.z - self.z,
    {
        Offset3 {
            dx: target.x as i64 - self.x as i64,
            dy: target.y as i64 - self.y as i64,
            dz: target.z as i64 - self.z as i64,
        }
    }
}

/// The absolute value of `v`, which may be one more than `i64::MAX`.
fn magnitude(v: i64) -> (m: u128)
    ensures
        m == if v < 0 { -v } else { v as int },
        m <= 0x8000_0000_0000_0000,
{
    if v < 0 {
        (-(v as i128)) as u128
    } else {
        v as u128
    }
}

/// The square of a magnitude of at most 64 bits, which always fits.
fn square(m: u128) -> (s: u128)
    requires
        m <= u64::MAX,
    ensures
        s == m * m,
{
    assert(m * m <= 0xffff_ffff_ffff_ffff * 0xffff_ffff_ffff_ffff) by (nonlinear_arith)
        requires
            m <= 0xffff_ffff_ffff_ffff,
    ;
    m * m
}

/// The square of the magnitude of an `i64` is at most the 126th power of two.
proof fn lemma_square_bound(m: u128)
    requires
        m <= 0x8000_0000_0000_0000,
    ensures
        m * m <= 0x4000_0000_0000_0000_0000_0000_0000_0000,
{
    assert(m * m <= 0x8000_0000_0000_0000 * 0x8000_0000_0000_0000) by (nonlinear_arith)
        requires
            m <= 0x8000_0000_0000_0000,
    ;
}

impl Offset3 {
    /// The square of the Euclidean length.
    pub open spec fn norm_sq(self) -> int {
        self.dx * self.dx + self.dy * self.dy + self.dz * self.dz
    }

    /// Whether this is the displacement that leads nowhere.
    pub open spec fn is_zero(self) -> bool {
        self.dx == 0 && self.dy == 0 && self.dz == 0
    }

    /// The displacement with the given components.
    pub fn new(dx: i64, dy: i64, dz: i64) -> (offset: Offset3)
        ensures
            offset == (Offset3 { dx, dy, dz }),
    {
        Offset3 { dx, dy, dz }
    }

    /// The square of the Euclidean length, exactly.
    pub fn length_squared(&self) -> (n: u128)
        ensures
            n == self.norm_sq(),
    {
        let ax: u128 = magnitude(self.dx);
        let ay: u128 = magnitude(self.dy);
        let az: u128 = magnitude(self.dz);
        proof {
            assert(ax * ax == self.dx * self.dx) by (nonlinear_arith)
                requires
                    ax == self.dx || ax == -self.dx,
            ;
            assert(ay * ay == self.dy * self.dy) by (nonlinear_arith)
                requires
                    ay == self.dy || ay == -self.dy,
            ;
            assert(az * az == self.dz * self.dz) by (nonlinear_arith)
                requires
                    az == self.dz || az == -self.dz,
            ;
            lemma_square_bound(ax);
            lemma_square_bound(ay);
            lemma_square_bound(az);
        }
        let sx: u128 = square(ax);
        let sy: u128 = square(ay);
        let sz: u128 = square(az);
        sx + sy + sz
    }

    /// Whether the Euclidean length is at most `reach`.
    ///
    /// Both sides are non-negative, so comparing the squares decides it.
    pub fn within(&self, reach: u64) -> (near: bool)
        ensures
            near == (self.norm_sq() <= reach * reach),
    {
        let limit: u128 = square(reach as u128);
        self.length_squared() <= limit
    }
}

} // verus!
