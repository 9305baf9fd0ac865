//! Homogeneous tuples of four scalars. A point has `w` one and a free vector
//! has `w` zero; the arithmetic treats all four components alike and leaves it
//! to the caller to combine points and vectors meaningfully.

use vstd::prelude::*;
use vstd::std_specs::cmp::PartialEqSpecImpl;
use vstd::std_specs::ops::{AddSpecImpl, DivSpecImpl, MulSpecImpl, NegSpecImpl, SubSpecImpl};
use crate::ray_tracer::scalar::Scalar;
use crate::ray_tracer::util::{f64_is_equal, spec_is_equal};

verus! {

#[derive(Debug, Clone, Copy)]
pub struct Tuple {
    pub x: Scalar,
    pub y: Scalar,
    pub z: Scalar,
    pub w: Scalar,
}

impl Tuple {
    pub open spec fn spec_point(x: Scalar, y: Scalar, z: Scalar) -> Tuple {
        Tuple { x, y, z, w: Scalar::one() }
    }

    pub open spec fn spec_vector(x: Scalar, y: Scalar, z: Scalar) -> Tuple {
        Tuple { x, y, z, w: Scalar::zero() }
    }

    /// The component-wise sum.
    pub open spec fn plus(self, rhs: Tuple) -> Tuple {
        Tuple {
            x: self.x.add(rhs.x),
            y: self.y.add(rhs.y),
            z: self.z.add(rhs.z),
            w: self.w.add(rhs.w),
        }
    }

    /// The component-wise difference.
    pub open spec fn minus(self, rhs: Tuple) -> Tuple {
        Tuple {
            x: self.x.sub(rhs.x),
            y: self.y.sub(rhs.y),
            z: self.z.sub(rhs.z),
            w: self.w.sub(rhs.w),
        }
    }

    /// Every component multiplied by `k`.
    pub open spec fn scaled(self, k: Scalar) -> Tuple {
        Tuple { x: self.x.mul(k), y: self.y.mul(k), z: self.z.mul(k), w: self.w.mul(k) }
    }

    /// Every component divided by `k`.
    pub open spec fn divided(self, k: Scalar) -> Tuple {
        Tuple { x: self.x.div(k), y: self.y.div(k), z: self.z.div(k), w: self.w.div(k) }
    }

    /// Every component with its sign flipped.
    pub open spec fn negated(self) -> Tuple {
        Tuple { x: self.x.neg(), y: self.y.neg(), z: self.z.neg(), w: self.w.neg() }
    }

    /// The sum of the four products, added from `x` to `w`.
    pub open spec fn spec_dot(&self, rhs: &Tuple) -> Scalar {
        self.x.mul(rhs.x).add(self.y.mul(rhs.y)).add(self.z.mul(rhs.z)).add(self.w.mul(rhs.w))
    }

    /// The square root of the sum of the four squares.
    pub open spec fn spec_magnitude(&self) -> Scalar {
        self.x.mul(self.x).add(self.y.mul(self.y)).add(self.z.mul(self.z)).add(
            self.w.mul(self.w),
        ).sqrt()
    }

    /// The tuple divided by its own magnitude.
    pub open spec fn spec_normalize(&self) -> Tuple {
        self.divided(self.spec_magnitude())
    }

    /// The cross product of the spatial parts, as a vector.
    pub open spec fn spec_cross(&self, rhs: &Tuple) -> Tuple {
        Tuple {
            x: self.y.mul(rhs.z).sub(self.z.mul(rhs.y)),
            y: self.z.mul(rhs.x).sub(self.x.mul(rhs.z)),
            z: self.x.mul(rhs.y).sub(self.y.mul(rhs.x)),
            w: Scalar::zero(),
        }
    }

    /// Whether all four components are approximately equal.
    pub open spec fn close_to(self, rhs: Tuple) -> bool {
        &&& spec_is_equal(self.x, rhs.x)
        &&& spec_is_equal(self.y, rhs.y)
        &&& spec_is_equal(self.z, rhs.z)
        &&& spec_is_equal(self.w, rhs.w)
    }

    /// A location: `w` is one.
    #[verifier::when_used_as_spec(spec_point)]
    pub fn point(x: Scalar, y: Scalar, z: Scalar) -> (r: Tuple)
        ensures
            r == Tuple::spec_point(x, y, z),
    {
        Tuple { x, y, z, w: Scalar::one() }
    }

    /// A direction or displacement: `w` is zero.
    #[verifier::when_used_as_spec(spec_vector)]
    pub fn vector(x: Scalar, y: Scalar, z: Scalar) -> (r: Tuple)
        ensures
            r == Tuple::spec_vector(x, y, z),
    {
        Tuple { x, y, z, w: Scalar::zero() }
    }

    #[verifier::when_used_as_spec(spec_magnitude)]
    pub fn magnitude(&self) -> (r: Scalar)
        ensures
            r == self.spec_magnitude(),
    {
        self.x.mul(self.x).add(self.y.mul(self.y)).add(self.z.mul(self.z)).add(
            self.w.mul(self.w),
        ).sqrt()
    }

    /// Divides every component by the magnitude. A tuple of magnitude zero
    /// yields whatever IEEE 754 division by zero yields; nothing guards it.
    #[verifier::when_used_as_spec(spec_normalize)]
    pub fn normalize(&self) -> (r: Tuple)
        ensures
            r == self.spec_normalize(),
    {
        let magnitude = self.magnitude();
        Tuple {
            x: self.x.div(magnitude),
            y: self.y.div(magnitude),
            z: self.z.div(magnitude),
            w: self.w.div(magnitude),
        }
    }

    #[verifier::when_used_as_spec(spec_dot)]
    pub fn dot(&self, rhs: &Tuple) -> (r: Scalar)
        ensures
            r == self.spec_dot(rhs),
    {
        self.x.mul(rhs.x).add(self.y.mul(rhs.y)).add(self.z.mul(rhs.z)).add(self.w.mul(rhs.w))
    }

    /// The result is a vector whatever the operands' `w`.
    #[verifier::when_used_as_spec(spec_cross)]
    pub fn cross(&self, rhs: &Tuple) -> (r: Tuple)
        ensures
            r == self.spec_cross(rhs),
            r.w == Scalar::zero(),
    {
        Tuple {
            x: self.y.mul(rhs.z).sub(self.z.mul(rhs.y)),
            y: self.z.mul(rhs.x).sub(self.x.mul(rhs.z)),
            z: self.x.mul(rhs.y).sub(self.y.mul(rhs.x)),
            w: Scalar::zero(),
        }
    }
}

impl core::ops::Add<Tuple> for Tuple {
    type Output = Tuple;

    fn add(self, rhs: Tuple) -> (r: Tuple) {
        Tuple {
            x: self.x.add(rhs.x),
            y: self.y.add(rhs.y),
            z: self.z.add(rhs.z),
            w: self.w.add(rhs.w),
        }
    }
}

impl AddSpecImpl<Tuple> for Tuple {
    open spec fn obeys_add_spec() -> bool {
        true
    }

    open spec fn add_req(self, rhs: Tuple) -> bool {
        true
    }

    open spec fn add_spec(self, rhs: Tuple) -> Tuple {
        self.plus(rhs)
    }
}

impl<'a> core::ops::Add<Tuple> for &'a Tuple {
    type Output = Tuple;

    fn add(self, rhs: Tuple) -> (r: Tuple) {
        Tuple {
            x: self.x.add(rhs.x),
            y: self.y.add(rhs.y),
            z: self.z.add(rhs.z),
            w: self.w.add(rhs.w),
        }
    }
}

impl<'a> AddSpecImpl<Tuple> for &'a Tuple {
    open spec fn obeys_add_spec() -> bool {
        true
    }

    open spec fn add_req(self, rhs: Tuple) -> bool {
        true
    }

    open spec fn add_spec(self, rhs: Tuple) -> Tuple {
        self.plus(rhs)
    }
}

impl<'b> core::ops::Add<&'b Tuple> for Tuple {
    type Output = Tuple;

    fn add(self, rhs: &'b Tuple) -> (r: Tuple) {
        Tuple {
            x: self.x.add(rhs.x),
            y: self.y.add(rhs.y),
            z: self.z.add(rhs.z),
            w: self.w.add(rhs.w),
        }
    }
}

impl<'b> AddSpecImpl<&'b Tuple> for Tuple {
    open spec fn obeys_add_spec() -> bool {
        true
    }

    open spec fn add_req(self, rhs: &'b Tuple) -> bool {
        true
    }

    open spec fn add_spec(self, rhs: &'b Tuple) -> Tuple {
        self.plus(*rhs)
    }
}

impl<'a, 'b> core::ops::Add<&'b Tuple> for &'a Tuple {
    type Output = Tuple;

    fn add(self, rhs: &'b Tuple) -> (r: Tuple) {
        Tuple {
            x: self.x.add(rhs.x),
            y: self.y.add(rhs.y),
            z: self.z.add(rhs.z),
            w: self.w.add(rhs.w),
        }
    }
}

impl<'a, 'b> AddSpecImpl<&'b Tuple> for &'a Tuple {
    open spec fn obeys_add_spec() -> bool {
        true
    }

    open spec fn add_req(self, rhs: &'b Tuple) -> bool {
        true
    }

    open spec fn add_spec(self, rhs: &'b Tuple) -> Tuple {
        self.plus(*rhs)
    }
}

impl core::ops::Sub<Tuple> for Tuple {
    type Output = Tuple;

    fn sub(self, rhs: Tuple) -> (r: Tuple) {
        Tuple {
            x: self.x.sub(rhs.x),
            y: self.y.sub(rhs.y),
            z: self.z.sub(rhs.z),
            w: self.w.sub(rhs.w),
        }
    }
}

impl SubSpecImpl<Tuple> for Tuple {
    open spec fn obeys_sub_spec() -> bool {
        true
    }

    open spec fn sub_req(self, rhs: Tuple) -> bool {
        true
    }

    open spec fn sub_spec(self, rhs: Tuple) -> Tuple {
        self.minus(rhs)
    }
}

impl<'a> core::ops::Sub<Tuple> for &'a Tuple {
    type Output = Tuple;

    fn sub(self, rhs: Tuple) -> (r: Tuple) {
        Tuple {
            x: self.x.sub(rhs.x),
            y: self.y.sub(rhs.y),
            z: self.z.sub(rhs.z),
            w: self.w.sub(rhs.w),
        }
    }
}

impl<'a> SubSpecImpl<Tuple> for &'a Tuple {
    open spec fn obeys_sub_spec() -> bool {
        true
    }

    open spec fn sub_req(self, rhs: Tuple) -> bool {
        true
    }

    open spec fn sub_spec(self, rhs: Tuple) -> Tuple {
        self.minus(rhs)
    }
}

impl<'b> core::ops::Sub<&'b Tuple> for Tuple {
    type Output = Tuple;

    fn sub(self, rhs: &'b Tuple) -> (r: Tuple) {
        Tuple {
            x: self.x.sub(rhs.x),
            y: self.y.sub(rhs.y),
            z: self.z.sub(rhs.z),
            w: self.w.sub(rhs.w),
        }
    }
}

impl<'b> SubSpecImpl<&'b Tuple> for Tuple {
    open spec fn obeys_sub_spec() -> bool {
        true
    }

    open spec fn sub_req(self, rhs: &'b Tuple) -> bool {
        true
    }

    open spec fn sub_spec(self, rhs: &'b Tuple) -> Tuple {
        self.minus(*rhs)
    }
}

impl<'a, 'b> core::ops::Sub<&'b Tuple> for &'a Tuple {
    type Output = Tuple;

    fn sub(self, rhs: &'b Tuple) -> (r: Tuple) {
        Tuple {
            x: self.x.sub(rhs.x),
            y: self.y.sub(rhs.y),
            z: self.z.sub(rhs.z),
            w: self.w.sub(rhs.w),
        }
    }
}

impl<'a, 'b> SubSpecImpl<&'b Tuple> for &'a Tuple {
    open spec fn obeys_sub_spec() -> bool {
        true
    }

    open spec fn sub_req(self, rhs: &'b Tuple) -> bool {
        true
    }

    open spec fn sub_spec(self, rhs: &'b Tuple) -> Tuple {
        self.minus(*rhs)
    }
}

impl core::ops::Mul<Scalar> for Tuple {
    type Output = Tuple;

    fn mul(self, rhs: Scalar) -> (r: Tuple) {
        Tuple {
            x: self.x.mul(rhs),
            y: self.y.mul(rhs),
            z: self.z.mul(rhs),
            w: self.w.mul(rhs),
        }
    }
}

impl MulSpecImpl<Scalar> for Tuple {
    open spec fn obeys_mul_spec() -> bool {
        true
    }

    open spec fn mul_req(self, rhs: Scalar) -> bool {
        true
    }

    open spec fn mul_spec(self, rhs: Scalar) -> Tuple {
        self.scaled(rhs)
    }
}

impl<'a> core::ops::Mul<Scalar> for &'a Tuple {
    type Output = Tuple;

    fn mul(self, rhs: Scalar) -> (r: Tuple) {
        Tuple {
            x: self.x.mul(rhs),
            y: self.y.mul(rhs),
            z: self.z.mul(rhs),
            w: self.w.mul(rhs),
        }
    }
}

impl<'a> MulSpecImpl<Scalar> for &'a Tuple {
    open spec fn obeys_mul_spec() -> bool {
        true
    }

    open spec fn mul_req(self, rhs: Scalar) -> bool {
        true
    }

    open spec fn mul_spec(self, rhs: Scalar) -> Tuple {
        self.scaled(rhs)
    }
}

impl<'b> core::ops::Mul<&'b Scalar> for Tuple {
    type Output = Tuple;

    fn mul(self, rhs: &'b Scalar) -> (r: Tuple) {
        Tuple {
            x: self.x.mul(*rhs),
            y: self.y.mul(*rhs),
            z: self.z.mul(*rhs),
            w: self.w.mul(*rhs),
        }
    }
}

impl<'b> MulSpecImpl<&'b Scalar> for Tuple {
    open spec fn obeys_mul_spec() -> bool {
        true
    }

    open spec fn mul_req(self, rhs: &'b Scalar) -> bool {
        true
    }

    open spec fn mul_spec(self, rhs: &'b Scalar) -> Tuple {
        self.scaled(*rhs)
    }
}

impl<'a, 'b> core::ops::Mul<&'b Scalar> for &'a Tuple {
    type Output = Tuple;

    fn mul(self, rhs: &'b Scalar) -> (r: Tuple) {
        Tuple {
            x: self.x.mul(*rhs),
            y: self.y.mul(*rhs),
            z: self.z.mul(*rhs),
            w: self.w.mul(*rhs),
        }
    }
}

impl<'a, 'b> MulSpecImpl<&'b Scalar> for &'a Tuple {
    open spec fn obeys_mul_spec() -> bool {
        true
    }

    open spec fn mul_req(self, rhs: &'b Scalar) -> bool {
        true
    }

    open spec fn mul_spec(self, rhs: &'b Scalar) -> Tuple {
        self.scaled(*rhs)
    }
}

impl core::ops::Div<Scalar> for Tuple {
    type Output = Tuple;

    fn div(self, rhs: Scalar) -> (r: Tuple) {
        Tuple {
            x: self.x.div(rhs),
            y: self.y.div(rhs),
            z: self.z.div(rhs),
            w: self.w.div(rhs),
        }
    }
}

impl DivSpecImpl<Scalar> for Tuple {
    open spec fn obeys_div_spec() -> bool {
        true
    }

    open spec fn div_req(self, rhs: Scalar) -> bool {
        true
    }

    open spec fn div_spec(self, rhs: Scalar) -> Tuple {
        self.divided(rhs)
    }
}

impl<'a> core::ops::Div<Scalar> for &'a Tuple {
    type Output = Tuple;

    fn div(self, rhs: Scalar) -> (r: Tuple) {
        Tuple {
            x: self.x.div(rhs),
            y: self.y.div(rhs),
            z: self.z.div(rhs),
            w: self.w.div(rhs),
        }
    }
}

impl<'a> DivSpecImpl<Scalar> for &'a Tuple {
    open spec fn obeys_div_spec() -> bool {
        true
    }

    open spec fn div_req(self, rhs: Scalar) -> bool {
        true
    }

    open spec fn div_spec(self, rhs: Scalar) -> Tuple {
        self.divided(rhs)
    }
}

impl<'b> core::ops::Div<&'b Scalar> for Tuple {
    type Output = Tuple;

    fn div(self, rhs: &'b Scalar) -> (r: Tuple) {
        Tuple {
            x: self.x.div(*rhs),
            y: self.y.div(*rhs),
            z: self.z.div(*rhs),
            w: self.w.div(*rhs),
        }
    }
}

impl<'b> DivSpecImpl<&'b Scalar> for Tuple {
    open spec fn obeys_div_spec() -> bool {
        true
    }

    open spec fn div_req(self, rhs: &'b Scalar) -> bool {
        true
    }

    open spec fn div_spec(self, rhs: &'b Scalar) -> Tuple {
        self.divided(*rhs)
    }
}

impl<'a, 'b> core::ops::Div<&'b Scalar> for &'a Tuple {
    type Output = Tuple;

    fn div(self, rhs: &'b Scalar) -> (r: Tuple) {
        Tuple {
            x: self.x.div(*rhs),
            y: self.y.div(*rhs),
            z: self.z.div(*rhs),
            w: self.w.div(*rhs),
        }
    }
}

impl<'a, 'b> DivSpecImpl<&'b Scalar> for &'a Tuple {
    open spec fn obeys_div_spec() -> bool {
        true
    }

    open spec fn div_req(self, rhs: &'b Scalar) -> bool {
        true
    }

    open spec fn div_spec(self, rhs: &'b Scalar) -> Tuple {
        self.divided(*rhs)
    }
}

impl core::ops::Neg for Tuple {
    type Output = Tuple;

    fn neg(self) -> (r: Tuple) {
        Tuple { x: self.x.neg(), y: self.y.neg(), z: self.z.neg(), w: self.w.neg() }
    }
}

impl NegSpecImpl for Tuple {
    open spec fn obeys_neg_spec() -> bool {
        true
    }

    open spec fn neg_req(self) -> bool {
        true
    }

    open spec fn neg_spec(self) -> Tuple {
        self.negated()
    }
}

impl<'a> core::ops::Neg for &'a Tuple {
    type Output = Tuple;

    fn neg(self) -> (r: Tuple) {
        Tuple { x: self.x.neg(), y: self.y.neg(), z: self.z.neg(), w: self.w.neg() }
    }
}

impl<'a> NegSpecImpl for &'a Tuple {
    open spec fn obeys_neg_spec() -> bool {
        true
    }

    open spec fn neg_req(self) -> bool {
        true
    }

    open spec fn neg_spec(self) -> Tuple {
        self.negated()
    }
}

impl PartialEq for Tuple {
    /// Approximate equality, component by component. It is meant for
    /// comparing results, not for steering a computation.
    fn eq(&self, other: &Tuple) -> (r: bool) {
        f64_is_equal(self.x, other.x) && f64_is_equal(self.y, other.y) && f64_is_equal(
            self.z,
            other.z,
        ) && f64_is_equal(self.w, other.w)
    }
}

impl PartialEqSpecImpl for Tuple {
    open spec fn obeys_eq_spec() -> bool {
        true
    }

    open spec fn eq_spec(&self, other: &Tuple) -> bool {
        self.close_to(*other)
    }
}

} // verus!
