//! Three-component fixed-point vectors and the axis they are split along.

use vstd::prelude::*;
use crate::fixed::{
    abs_sat, add_sat, div_fx, fx_abs, fx_add, fx_div, fx_mul, fx_sub, mul_fx, sub_sat,
};

verus! {

/// A coordinate axis.
#[derive(Clone, Copy, Debug, PartialEq, Eq, Structural)]
pub enum Axis {
    X,
    Y,
    Z,
}

/// A vector of three fixed-point components (millionths of a unit).
#[derive(Clone, Copy, Debug, PartialEq, Eq, Structural)]
pub struct Vec3 {
    pub x: i64,
    pub y: i64,
    pub z: i64,
}

/// Builds a vector from ideal components that already lie in range.
pub open spec fn vec3_of(x: int, y: int, z: int) -> Vec3 {
    Vec3 { x: x as i64, y: y as i64, z: z as i64 }
}

/// The zero vector.
pub open spec fn zero_vec() -> Vec3 {
    Vec3 { x: 0, y: 0, z: 0 }
}

/// Component-wise saturating sum.
pub open spec fn vadd(a: Vec3, b: Vec3) -> Vec3 {
    vec3_of(add_sat(a.x as int, b.x as int), add_sat(a.y as int, b.y as int), add_sat(a.z as int, b.z as int))
}

/// Component-wise saturating difference.
pub open spec fn vsub(a: Vec3, b: Vec3) -> Vec3 {
    vec3_of(sub_sat(a.x as int, b.x as int), sub_sat(a.y as int, b.y as int), sub_sat(a.z as int, b.z as int))
}

/// Component-wise saturating absolute value.
pub open spec fn vabs(a: Vec3) -> Vec3 {
    vec3_of(abs_sat(a.x as int), abs_sat(a.y as int), abs_sat(a.z as int))
}

/// Each component multiplied by the fixed-point scalar `k`.
pub open spec fn vscale(a: Vec3, k: int) -> Vec3 {
    vec3_of(mul_fx(a.x as int, k), mul_fx(a.y as int, k), mul_fx(a.z as int, k))
}

/// Each component divided by the positive fixed-point scalar `m`.
pub open spec fn vdiv(a: Vec3, m: int) -> Vec3 {
    vec3_of(div_fx(a.x as int, m), div_fx(a.y as int, m), div_fx(a.z as int, m))
}

impl Vec3 {
    /// The component along `axis`.
    pub open spec fn at(self, axis: Axis) -> int {
        match axis {
            Axis::X => self.x as int,
            Axis::Y => self.y as int,
            Axis::Z => self.z as int,
        }
    }

    /// This vector with its component along `axis` replaced by `v`.
    pub open spec fn with(self, axis: Axis, v: i64) -> Vec3 {
        match axis {
            Axis::X => Vec3 { x: v, ..self },
            Axis::Y => Vec3 { y: v, ..self },
            Axis::Z => Vec3 { z: v, ..self },
        }
    }

    pub fn new(x: i64, y: i64, z: i64) -> (r: Vec3)
        ensures
            r == (Vec3 { x, y, z }),
    {
        Vec3 { x, y, z }
    }

    pub fn zero() -> (r: Vec3)
        ensures
            r == zero_vec(),
    {
        Vec3 { x: 0, y: 0, z: 0 }
    }

    /// All three components equal to `v`.
    pub fn splat(v: i64) -> (r: Vec3)
        ensures
            r == (Vec3 { x: v, y: v, z: v }),
    {
        Vec3 { x: v, y: v, z: v }
    }

    pub fn plus(&self, o: &Vec3) -> (r: Vec3)
        ensures
            r == vadd(*self, *o),
    {
        Vec3 { x: fx_add(self.x, o.x), y: fx_add(self.y, o.y), z: fx_add(self.z, o.z) }
    }

    pub fn minus(&self, o: &Vec3) -> (r: Vec3)
        ensures
            r == vsub(*self, *o),
    {
        Vec3 { x: fx_sub(self.x, o.x), y: fx_sub(self.y, o.y), z: fx_sub(self.z, o.z) }
    }

    pub fn abs(&self) -> (r: Vec3)
        ensures
            r == vabs(*self),
    {
        Vec3 { x: fx_abs(self.x), y: fx_abs(self.y), z: fx_abs(self.z) }
    }

    pub fn scaled(&self, k: i64) -> (r: Vec3)
        ensures
            r == vscale(*self, k as int),
    {
        Vec3 { x: fx_mul(self.x, k), y: fx_mul(self.y, k), z: fx_mul(self.z, k) }
    }

    pub fn divided(&self, m: i64) -> (r: Vec3)
        requires
            m > 0,
        ensures
            r == vdiv(*self, m as int),
    {
        Vec3 { x: fx_div(self.x, m), y: fx_div(self.y, m), z: fx_div(self.z, m) }
    }

    /// The component along `axis`.
    pub fn get(&self, axis: Axis) -> (r: i64)
        ensures
            r as int == self.at(axis),
    {
        match axis {
            Axis::X => self.x,
            Axis::Y => self.y,
            Axis::Z => self.z,
        }
    }

    /// Replaces the component along `axis` by `v`.
    pub fn set(&mut self, axis: Axis, v: i64)
        ensures
            *final(self) == old(self).with(axis, v),
    {
        match axis {
            Axis::X => self.x = v,
            Axis::Y => self.y = v,
            Axis::Z => self.z = v,
        }
    }
}

} // verus!
