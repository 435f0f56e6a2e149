//! Points and displacements in world space, in thousandths of a world unit.

use crate::fixed::{clamp_i64, gap, magnitude, scale_signed, scaled_signed, shift};
use vstd::prelude::*;

verus! {

/// A point or a displacement.
#[derive(Clone, Copy, Debug, PartialEq, Eq, Structural)]
pub struct Vec3 {
    pub x: i64,
    pub y: i64,
    pub z: i64,
}

/// The square of the distance between two points.
pub open spec fn distance_squared(a: Vec3, b: Vec3) -> int {
    (a.x - b.x) * (a.x - b.x) + (a.y - b.y) * (a.y - b.y) + (a.z - b.z) * (a.z - b.z)
}

/// The point reached from `from` by moving along `step`.
pub open spec fn moved(from: Vec3, step: Vec3) -> Vec3 {
    Vec3 {
        x: clamp_i64(from.x + step.x),
        y: clamp_i64(from.y + step.y),
        z: clamp_i64(from.z + step.z),
    }
}

/// The displacement `v` multiplied by the fixed-point `factor`.
pub open spec fn stretched(v: Vec3, factor: int) -> Vec3 {
    Vec3 {
        x: clamp_i64(scaled_signed(v.x as int, factor)),
        y: clamp_i64(scaled_signed(v.y as int, factor)),
        z: clamp_i64(scaled_signed(v.z as int, factor)),
    }
}

proof fn lemma_square_order(a: int, b: int)
    by (nonlinear_arith)
    requires
        0 <= a,
        0 <= b,
    ensures
        a <= b <==> a * a <= b * b,
        a * a >= 0,
{
}

proof fn lemma_square_of_magnitude(d: int)
    by (nonlinear_arith)
    ensures
        magnitude(d) * magnitude(d) == d * d,
{
}

impl Vec3 {
    /// The origin.
    pub fn zero() -> (r: Vec3)
        ensures
            r == (Vec3 { x: 0, y: 0, z: 0 }),
    {
        Vec3 { x: 0, y: 0, z: 0 }
    }

    /// Builds a point from its coordinates.
    pub fn new(x: i64, y: i64, z: i64) -> (r: Vec3)
        ensures
            r == (Vec3 { x, y, z }),
    {
        Vec3 { x, y, z }
    }

    /// Moves the point along `step`.
    pub fn plus(self, step: Vec3) -> (r: Vec3)
        ensures
            r == moved(self, step),
    {
        Vec3 { x: shift(self.x, step.x), y: shift(self.y, step.y), z: shift(self.z, step.z) }
    }

    /// Multiplies the displacement by the fixed-point `factor`.
    pub fn times(self, factor: u64) -> (r: Vec3)
        ensures
            r == stretched(self, factor as int),
    {
        Vec3 {
            x: scale_signed(self.x, factor),
            y: scale_signed(self.y, factor),
            z: scale_signed(self.z, factor),
        }
    }

    /// How much room is left between the square of the distance to `other`
    /// and the square of `range`; nothing if `other` lies farther away
    /// than `range`.
    fn room_within(self, other: Vec3, range: u64) -> (room: Option<u128>)
        ensures
            match room {
                Some(left) => left == range * range - distance_squared(self, other),
                None => distance_squared(self, other) > range * range,
            },
    {
        let dx: u64 = gap(self.x, other.x);
        let dy: u64 = gap(self.y, other.y);
        let dz: u64 = gap(self.z, other.z);
        proof {
            lemma_square_of_magnitude(self.x - other.x);
            lemma_square_of_magnitude(self.y - other.y);
            lemma_square_of_magnitude(self.z - other.z);
            lemma_square_order(dx as int, range as int);
            lemma_square_order(dy as int, range as int);
            lemma_square_order(dz as int, range as int);
            lemma_square_order(range as int, 0xffff_ffff_ffff_ffff);
        }
        if dx > range || dy > range || dz > range {
            return None;
        }
        let limit: u128 = (range as u128) * (range as u128);
        let left: u128 = limit - (dx as u128) * (dx as u128);
        let sy: u128 = (dy as u128) * (dy as u128);
        if sy > left {
            return None;
        }
        let rest: u128 = left - sy;
        let sz: u128 = (dz as u128) * (dz as u128);
        if sz > rest {
            None
        } else {
            Some(rest - sz)
        }
    }

    /// Whether `other` lies at most `range` away.
    pub fn within(self, other: Vec3, range: u64) -> (r: bool)
        ensures
            r == (distance_squared(self, other) <= range * range),
    {
        self.room_within(other, range).is_some()
    }

    /// Whether `other` lies less than `range` away.
    pub fn closer_than(self, other: Vec3, range: u64) -> (r: bool)
        ensures
            r == (distance_squared(self, other) < range * range),
    {
        match self.room_within(other, range) {
            Some(left) => left > 0,
            None => false,
        }
    }
}

} // verus!
