use vstd::prelude::*;

use crate::scalar::Scalar;
use crate::scalar::add_of;
use crate::scalar::sub_of;
use crate::scalar::mul_of;
use crate::scalar::div_of;
use crate::scalar::sqrt_of;
use crate::scalar::sin_of;
use crate::scalar::cos_of;
use crate::scalar::two_text;
use crate::scalar::three_text;

verus! {

// A Cartesian 3-vector of scalars, used both for orbital positions and
// velocities (meters, meters per second) and for mesh vertex positions.

/// The mathematical value of a `Vec3`: the decimal texts of its components.
pub struct Vec3View {
    pub x: Seq<char>,
    pub y: Seq<char>,
    pub z: Seq<char>,
}

/// A Cartesian 3-vector of scalar components.
#[derive(Debug)]
pub struct Vec3 {
    pub x: Scalar,
    pub y: Scalar,
    pub z: Scalar,
}

impl View for Vec3 {
    type V = Vec3View;

    open spec fn view(&self) -> Vec3View {
        Vec3View { x: self.x@, y: self.y@, z: self.z@ }
    }
}

/// Componentwise sum of two vectors.
pub open spec fn vadd(a: Vec3View, b: Vec3View) -> Vec3View {
    Vec3View { x: add_of(a.x, b.x), y: add_of(a.y, b.y), z: add_of(a.z, b.z) }
}

/// Componentwise difference of two vectors.
pub open spec fn vsub(a: Vec3View, b: Vec3View) -> Vec3View {
    Vec3View { x: sub_of(a.x, b.x), y: sub_of(a.y, b.y), z: sub_of(a.z, b.z) }
}

/// Each component multiplied by the scalar `k`.
pub open spec fn vscale(a: Vec3View, k: Seq<char>) -> Vec3View {
    Vec3View { x: mul_of(a.x, k), y: mul_of(a.y, k), z: mul_of(a.z, k) }
}

/// Each component divided by the scalar `k`.
pub open spec fn vdiv(a: Vec3View, k: Seq<char>) -> Vec3View {
    Vec3View { x: div_of(a.x, k), y: div_of(a.y, k), z: div_of(a.z, k) }
}

/// Dot product, summed left to right.
pub open spec fn vdot(a: Vec3View, b: Vec3View) -> Seq<char> {
    add_of(add_of(mul_of(a.x, b.x), mul_of(a.y, b.y)), mul_of(a.z, b.z))
}

/// Cross product.
pub open spec fn vcross(a: Vec3View, b: Vec3View) -> Vec3View {
    Vec3View {
        x: sub_of(mul_of(a.y, b.z), mul_of(a.z, b.y)),
        y: sub_of(mul_of(a.z, b.x), mul_of(a.x, b.z)),
        z: sub_of(mul_of(a.x, b.y), mul_of(a.y, b.x)),
    }
}

/// Euclidean magnitude: the square root of the dot product with itself.
pub open spec fn vmagnitude(a: Vec3View) -> Seq<char> {
    sqrt_of(vdot(a, a))
}

/// Rotation about the X axis by `angle` radians.
pub open spec fn vrotate_x(a: Vec3View, angle: Seq<char>) -> Vec3View {
    Vec3View {
        x: a.x,
        y: sub_of(mul_of(a.y, cos_of(angle)), mul_of(a.z, sin_of(angle))),
        z: add_of(mul_of(a.y, sin_of(angle)), mul_of(a.z, cos_of(angle))),
    }
}

/// Rotation about the Z axis by `angle` radians.
pub open spec fn vrotate_z(a: Vec3View, angle: Seq<char>) -> Vec3View {
    Vec3View {
        x: sub_of(mul_of(a.x, cos_of(angle)), mul_of(a.y, sin_of(angle))),
        y: add_of(mul_of(a.x, sin_of(angle)), mul_of(a.y, cos_of(angle))),
        z: a.z,
    }
}

/// The midpoint of two vectors: componentwise mean.
pub open spec fn vmidpoint(a: Vec3View, b: Vec3View) -> Vec3View {
    Vec3View {
        x: div_of(add_of(a.x, b.x), two_text()),
        y: div_of(add_of(a.y, b.y), two_text()),
        z: div_of(add_of(a.z, b.z), two_text()),
    }
}

/// The centroid of three vectors: componentwise sum divided by three.
pub open spec fn vcentroid(a: Vec3View, b: Vec3View, c: Vec3View) -> Vec3View {
    Vec3View {
        x: div_of(add_of(add_of(a.x, b.x), c.x), three_text()),
        y: div_of(add_of(add_of(a.y, b.y), c.y), three_text()),
        z: div_of(add_of(add_of(a.z, b.z), c.z), three_text()),
    }
}

/// Squared distance between two points, summed left to right.
pub open spec fn vdistance_squared(a: Vec3View, b: Vec3View) -> Seq<char> {
    vdot(vsub(a, b), vsub(a, b))
}

impl Vec3 {
    pub fn new(x: Scalar, y: Scalar, z: Scalar) -> (v: Vec3)
        ensures
            v@ == (Vec3View { x: x@, y: y@, z: z@ }),
    {
        Vec3 { x, y, z }
    }

    /// An identical copy of this vector.
    pub fn dup(&self) -> (v: Vec3)
        ensures
            v@ == self@,
    {
        Vec3 { x: self.x.dup(), y: self.y.dup(), z: self.z.dup() }
    }

    pub fn add(&self, other: &Vec3) -> (v: Vec3)
        ensures
            v@ == vadd(self@, other@),
    {
        Vec3 { x: self.x.add(&other.x), y: self.y.add(&other.y), z: self.z.add(&other.z) }
    }

    pub fn sub(&self, other: &Vec3) -> (v: Vec3)
        ensures
            v@ == vsub(self@, other@),
    {
        Vec3 { x: self.x.sub(&other.x), y: self.y.sub(&other.y), z: self.z.sub(&other.z) }
    }

    pub fn scale(&self, k: &Scalar) -> (v: Vec3)
        ensures
            v@ == vscale(self@, k@),
    {
        Vec3 { x: self.x.mul(k), y: self.y.mul(k), z: self.z.mul(k) }
    }

    pub fn div_scalar(&self, k: &Scalar) -> (v: Vec3)
        ensures
            v@ == vdiv(self@, k@),
    {
        Vec3 { x: self.x.div(k), y: self.y.div(k), z: self.z.div(k) }
    }

    pub fn dot(&self, other: &Vec3) -> (r: Scalar)
        ensures
            r@ == vdot(self@, other@),
    {
        self.x.mul(&other.x).add(&self.y.mul(&other.y)).add(&self.z.mul(&other.z))
    }

    pub fn cross(&self, other: &Vec3) -> (v: Vec3)
        ensures
            v@ == vcross(self@, other@),
    {
        Vec3 {
            x: self.y.mul(&other.z).sub(&self.z.mul(&other.y)),
            y: self.z.mul(&other.x).sub(&self.x.mul(&other.z)),
            z: self.x.mul(&other.y).sub(&self.y.mul(&other.x)),
        }
    }

    pub fn magnitude(&self) -> (r: Scalar)
        ensures
            r@ == vmagnitude(self@),
    {
        self.dot(self).sqrt()
    }

    pub fn rotate_x(&self, angle: &Scalar) -> (v: Vec3)
        ensures
            v@ == vrotate_x(self@, angle@),
    {
        let c = angle.cos();
        let s = angle.sin();
        Vec3 {
            x: self.x.dup(),
            y: self.y.mul(&c).sub(&self.z.mul(&s)),
            z: self.y.mul(&s).add(&self.z.mul(&c)),
        }
    }

    pub fn rotate_z(&self, angle: &Scalar) -> (v: Vec3)
        ensures
            v@ == vrotate_z(self@, angle@),
    {
        let c = angle.cos();
        let s = angle.sin();
        Vec3 {
            x: self.x.mul(&c).sub(&self.y.mul(&s)),
            y: self.x.mul(&s).add(&self.y.mul(&c)),
            z: self.z.dup(),
        }
    }

    /// The point halfway between `a` and `b`.
    pub fn midpoint(a: &Vec3, b: &Vec3) -> (v: Vec3)
        ensures
            v@ == vmidpoint(a@, b@),
    {
        let two = Scalar::two();
        Vec3 {
            x: a.x.add(&b.x).div(&two),
            y: a.y.add(&b.y).div(&two),
            z: a.z.add(&b.z).div(&two),
        }
    }

    /// The centroid of the triangle `a`, `b`, `c`.
    pub fn centroid(a: &Vec3, b: &Vec3, c: &Vec3) -> (v: Vec3)
        ensures
            v@ == vcentroid(a@, b@, c@),
    {
        let three = Scalar::three();
        Vec3 {
            x: a.x.add(&b.x).add(&c.x).div(&three),
            y: a.y.add(&b.y).add(&c.y).div(&three),
            z: a.z.add(&b.z).add(&c.z).div(&three),
        }
    }

    /// The squared distance between the points `a` and `b`.
    pub fn distance_squared(a: &Vec3, b: &Vec3) -> (r: Scalar)
        ensures
            r@ == vdistance_squared(a@, b@),
    {
        let d = a.sub(b);
        d.dot(&d)
    }
}

} // verus!
