//! Approximate comparison of scalars, for comparing results.

use vstd::prelude::*;
use crate::ray_tracer::scalar::Scalar;

verus! {

/// The tolerance of approximate equality, 1e-5.
pub open spec fn spec_epsilon() -> Scalar {
    Scalar { bits: 0x3EE4_F8B5_88E3_68F1 }
}

/// Whether `a` and `b` differ by less than the tolerance.
pub open spec fn spec_is_equal(a: Scalar, b: Scalar) -> bool {
    a.sub(b).abs().lt(spec_epsilon())
}

/// Approximate equality of two scalars: their difference is smaller in
/// magnitude than 1e-5. A difference that is no number is not smaller.
#[verifier::when_used_as_spec(spec_is_equal)]
pub fn f64_is_equal(a: Scalar, b: Scalar) -> (r: bool)
    ensures
        r == spec_is_equal(a, b),
{
    let epsilon = Scalar::from_bits(0x3EE4_F8B5_88E3_68F1);
    a.sub(b).abs().lt(epsilon)
}

} // verus!
