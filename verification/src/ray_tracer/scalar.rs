//! Scalars of the tracer: IEEE 754 binary64 values, held as their bit patterns.
//!
//! Ordering and sign handling are plain integer logic on the pattern and are
//! verified here; so are the conversion of an integer, which is exact, and
//! the square root, which is an integer square root of the significand.
//! Sums, differences, products and quotients are taken from `rustc_apfloat`.
//! Their results are named by the `ieee_*` functions below, and nothing more
//! is assumed of them than that equal operands give equal results.

use vstd::prelude::*;
use vstd::arithmetic::logarithm::{lemma_log0, lemma_log_s, log};
use vstd::arithmetic::power2::{
    lemma2_to64,
    lemma2_to64_rest,
    lemma_pow2_adds,
    lemma_pow2_pos,
    lemma_pow2_unfold,
    pow2,
};
use rustc_apfloat::ieee::Double;
use rustc_apfloat::{Float, Round};

verus! {

/// The sign bit of a binary64 pattern.
pub const SIGN_BIT: u64 = 0x8000_0000_0000_0000;

/// The pattern of positive infinity; every larger magnitude is a NaN.
pub const INFINITY_BITS: u64 = 0x7FF0_0000_0000_0000;

/// Two to the power 52: the weight of the hidden bit of a significand, and
/// the step of the exponent field in a pattern.
pub const HIDDEN_BIT: u64 = 0x10_0000_0000_0000;

/// Two to the power 51: the bit of the fraction that marks a NaN as quiet.
pub const QUIET_BIT: u64 = 0x8_0000_0000_0000;

/// The pattern of the NaN that an invalid operation yields.
pub const INVALID_BITS: u64 = 0xFFF8_0000_0000_0000;

/// Whether `s` is the integer square root of `n`: the greatest integer whose
/// square does not exceed `n`.
pub open spec fn is_floor_root(n: int, s: int) -> bool {
    0 <= s && s * s <= n < (s + 1) * (s + 1)
}

/// The integer square root of `n`.
pub open spec fn floor_root(n: int) -> int {
    choose|s: int| is_floor_root(n, s)
}

/// The square root of `n` rounded to the nearest integer. The root of an
/// integer never lies halfway between two integers.
pub open spec fn nearest_root(n: int) -> int {
    let s = floor_root(n);
    if n > s * s + s {
        s + 1
    } else {
        s
    }
}

/// The significand `m` and the exponent `e` of a positive finite number: its
/// value is `m * 2^(e - 1075)`, with `m` from `2^52` up to below `2^53`. For
/// a subnormal number the fraction is shifted up until its leading bit, at
/// place `k`, is the hidden one, which takes `e` below one.
pub open spec fn parts(bits: u64) -> (int, int) {
    if bits < HIDDEN_BIT {
        let k = log(2, bits as int);
        (bits * pow2((52 - k) as nat), k - 51)
    } else {
        (HIDDEN_BIT + bits % HIDDEN_BIT, (bits / HIDDEN_BIT) as int)
    }
}

/// The pattern of the square root of a positive finite number, correctly
/// rounded. With the value `m * 2^p` of the number, where `m` is doubled if
/// need be to make `p` even, the root is `sqrt(m * 2^52) * 2^(p / 2 - 26)`,
/// and the nearest integer to `sqrt(m * 2^52)` is its significand.
pub open spec fn positive_root(bits: u64) -> u64 {
    let (m, e) = parts(bits);
    let p = e - 1075;
    let odd = p % 2;
    let n = if odd == 1 {
        2 * m * HIDDEN_BIT
    } else {
        m * HIDDEN_BIT
    };
    let q = nearest_root(n);
    (((p - odd) / 2 + 1049) * HIDDEN_BIT + (q - HIDDEN_BIT)) as u64
}

/// The pattern of the sum that `rustc_apfloat` gives for the patterns `a` and
/// `b`, rounded to nearest, ties to even.
pub uninterp spec fn ieee_add(a: u64, b: u64) -> u64;

/// The pattern of the difference that `rustc_apfloat` gives for the patterns
/// `a` and `b`, rounded to nearest, ties to even.
pub uninterp spec fn ieee_sub(a: u64, b: u64) -> u64;

/// The pattern of the product that `rustc_apfloat` gives for the patterns `a`
/// and `b`, rounded to nearest, ties to even.
pub uninterp spec fn ieee_mul(a: u64, b: u64) -> u64;

/// The pattern of the quotient that `rustc_apfloat` gives for the patterns `a`
/// and `b`, rounded to nearest, ties to even.
pub uninterp spec fn ieee_div(a: u64, b: u64) -> u64;

/// Calls `add_r` of `rustc_apfloat::ieee::Double` with rounding to nearest,
/// ties to even: a pure function of the two patterns. Nothing is claimed of
/// the sum beyond its name.
#[verifier::external_body]
fn soft_add(a: u64, b: u64) -> (r: u64)
    ensures
        r == ieee_add(a, b),
{
    let (x, y) = (Double::from_bits(a.into()), Double::from_bits(b.into()));
    x.add_r(y, Round::NearestTiesToEven).value.to_bits() as u64
}

/// Calls `sub_r` of `rustc_apfloat::ieee::Double` with rounding to nearest,
/// ties to even: a pure function of the two patterns. Nothing is claimed of
/// the difference beyond its name.
#[verifier::external_body]
fn soft_sub(a: u64, b: u64) -> (r: u64)
    ensures
        r == ieee_sub(a, b),
{
    let (x, y) = (Double::from_bits(a.into()), Double::from_bits(b.into()));
    x.sub_r(y, Round::NearestTiesToEven).value.to_bits() as u64
}

/// Calls `mul_r` of `rustc_apfloat::ieee::Double` with rounding to nearest,
/// ties to even: a pure function of the two patterns. Nothing is claimed of
/// the product beyond its name.
#[verifier::external_body]
fn soft_mul(a: u64, b: u64) -> (r: u64)
    ensures
        r == ieee_mul(a, b),
{
    let (x, y) = (Double::from_bits(a.into()), Double::from_bits(b.into()));
    x.mul_r(y, Round::NearestTiesToEven).value.to_bits() as u64
}

/// Calls `div_r` of `rustc_apfloat::ieee::Double` with rounding to nearest,
/// ties to even: a pure function of the two patterns. A zero divisor gives an
/// infinity or a NaN, never a panic. Nothing is claimed of the quotient beyond
/// its name.
#[verifier::external_body]
fn soft_div(a: u64, b: u64) -> (r: u64)
    ensures
        r == ieee_div(a, b),
{
    let (x, y) = (Double::from_bits(a.into()), Double::from_bits(b.into()));
    x.div_r(y, Round::NearestTiesToEven).value.to_bits() as u64
}

/// Doubling a product doubles one factor.
proof fn lemma_doubling(a: int, b: int)
    ensures
        a * (2 * b) == 2 * (a * b),
{
    assert(a * (2 * b) == 2 * (a * b)) by (nonlinear_arith);
}

/// An integer from `2^k` up to below `2^(k + 1)` has its leading bit at
/// place `k`.
proof fn lemma_log_between(a: int, k: nat)
    requires
        pow2(k) <= a < pow2(k + 1),
    ensures
        log(2, a) == k,
    decreases k,
{
    lemma_pow2_unfold(k + 1);
    if k == 0 {
        lemma2_to64();
        lemma_log0(2, a);
    } else {
        lemma_pow2_unfold(k);
        lemma_log_between(a / 2, (k - 1) as nat);
        lemma_log_s(2, a);
    }
}

/// A positive integer that, shifted up by `52 - k` places, has its leading bit
/// at place 52, has it at place `k` itself.
proof fn lemma_leading_bit(a: int, k: nat)
    requires
        k <= 52,
        HIDDEN_BIT <= a * pow2((52 - k) as nat) < 2 * HIDDEN_BIT,
    ensures
        log(2, a) == k,
{
    let up = pow2((52 - k) as nat) as int;
    let low = pow2(k) as int;
    lemma_pow2_pos((52 - k) as nat);
    lemma_pow2_adds(k, (52 - k) as nat);
    lemma_pow2_unfold(k + 1);
    lemma2_to64_rest();
    assert(low * up == HIDDEN_BIT);
    assert(low <= a < 2 * low) by (nonlinear_arith)
        requires
            0 < up,
            low * up <= a * up < 2 * (low * up),
    ;
    lemma_log_between(a, k);
}

/// Of two integers that are not negative, the greater has the greater square.
proof fn lemma_squares_in_order(a: int, b: int)
    requires
        0 <= a,
        0 <= b,
    ensures
        a <= b ==> a * a <= b * b,
        a * a < b * b ==> a < b,
{
    assert(a <= b ==> a * a <= b * b) by (nonlinear_arith)
        requires
            0 <= a,
            0 <= b,
    ;
    assert(b <= a ==> b * b <= a * a) by (nonlinear_arith)
        requires
            0 <= a,
            0 <= b,
    ;
}

/// An integer between whose square and the square of its successor `n` lies
/// is the integer square root of `n`.
pub proof fn lemma_floor_root_is(n: int, s: int)
    requires
        is_floor_root(n, s),
    ensures
        floor_root(n) == s,
{
    let c = floor_root(n);
    assert(is_floor_root(n, c));
    lemma_squares_in_order(c + 1, s);
    lemma_squares_in_order(s + 1, c);
}

/// The integer square root of a number below `2^106`, bit by bit from the
/// top.
fn floor_root_of(n: u128) -> (s: u128)
    requires
        n < 0x400_0000_0000_0000_0000_0000_0000,
    ensures
        is_floor_root(n as int, s as int),
        s < 0x20_0000_0000_0000,
{
    let mut s: u128 = 0;
    let mut bit: u128 = 0x10_0000_0000_0000;
    let ghost mut k: nat = 52;
    proof {
        lemma2_to64_rest();
    }
    while bit > 0
        invariant
            n < 0x400_0000_0000_0000_0000_0000_0000,
            bit > 0 ==> bit == pow2(k),
            s + 2 * bit <= 0x20_0000_0000_0000,
            s * s <= n,
            bit > 0 ==> n < (s + 2 * bit) * (s + 2 * bit),
            bit == 0 ==> n < (s + 1) * (s + 1),
        decreases bit,
    {
        let t = s + bit;
        assert(t * t <= 0x400_0000_0000_0000_0000_0000_0000) by (nonlinear_arith)
            requires
                0 <= t <= 0x20_0000_0000_0000,
        ;
        if t * t <= n {
            s = t;
        }
        proof {
            if k > 0 {
                lemma_pow2_unfold(k);
            } else {
                lemma2_to64();
            }
            k = (k - 1) as nat;
        }
        bit = bit / 2;
    }
    proof {
        lemma_squares_in_order(0x20_0000_0000_0000, s as int);
    }
    s
}

/// A binary64 value, identified with its bit pattern.
#[derive(Clone, Copy, Debug)]
pub struct Scalar {
    pub bits: u64,
}

impl Scalar {
    /// The pattern with the sign bit cleared.
    pub open spec fn magnitude_bits(self) -> u64 {
        if self.bits >= SIGN_BIT {
            (self.bits - SIGN_BIT) as u64
        } else {
            self.bits
        }
    }

    /// Whether the pattern encodes no number.
    pub open spec fn spec_is_nan(self) -> bool {
        self.magnitude_bits() > INFINITY_BITS
    }

    /// The place of a number on the line of binary64 values: patterns of
    /// numbers compare as their ranks do, and both zeros have rank 0.
    pub open spec fn rank(self) -> int {
        if self.bits >= SIGN_BIT {
            -(self.magnitude_bits() as int)
        } else {
            self.bits as int
        }
    }

    /// `self < rhs` as IEEE 754 orders them: false when either is a NaN.
    pub open spec fn spec_lt(self, rhs: Scalar) -> bool {
        !self.spec_is_nan() && !rhs.spec_is_nan() && self.rank() < rhs.rank()
    }

    /// `self <= rhs` as IEEE 754 orders them: false when either is a NaN.
    pub open spec fn spec_le(self, rhs: Scalar) -> bool {
        !self.spec_is_nan() && !rhs.spec_is_nan() && self.rank() <= rhs.rank()
    }

    /// `self == rhs` as IEEE 754 compares them: a NaN equals nothing, and the
    /// two zeros are equal.
    pub open spec fn spec_same(self, rhs: Scalar) -> bool {
        !self.spec_is_nan() && !rhs.spec_is_nan() && self.rank() == rhs.rank()
    }

    pub open spec fn spec_neg(self) -> Scalar {
        if self.bits >= SIGN_BIT {
            Scalar { bits: (self.bits - SIGN_BIT) as u64 }
        } else {
            Scalar { bits: (self.bits + SIGN_BIT) as u64 }
        }
    }

    pub open spec fn spec_abs(self) -> Scalar {
        Scalar { bits: self.magnitude_bits() }
    }

    pub open spec fn spec_add(self, rhs: Scalar) -> Scalar {
        Scalar { bits: ieee_add(self.bits, rhs.bits) }
    }

    pub open spec fn spec_sub(self, rhs: Scalar) -> Scalar {
        Scalar { bits: ieee_sub(self.bits, rhs.bits) }
    }

    pub open spec fn spec_mul(self, rhs: Scalar) -> Scalar {
        Scalar { bits: ieee_mul(self.bits, rhs.bits) }
    }

    pub open spec fn spec_div(self, rhs: Scalar) -> Scalar {
        Scalar { bits: ieee_div(self.bits, rhs.bits) }
    }

    /// The square root, correctly rounded: a NaN stays one and is made
    /// quiet, a zero and positive infinity are their own roots, and a
    /// negative number has none.
    pub open spec fn spec_sqrt(self) -> Scalar {
        if self.spec_is_nan() {
            if (self.bits / QUIET_BIT) % 2 == 1 {
                self
            } else {
                Scalar { bits: (self.bits + QUIET_BIT) as u64 }
            }
        } else if self.magnitude_bits() == 0 || self.bits == INFINITY_BITS {
            self
        } else if self.bits >= SIGN_BIT {
            Scalar { bits: INVALID_BITS }
        } else {
            Scalar { bits: positive_root(self.bits) }
        }
    }

    /// The pattern of the integer `x`, which is the value itself, as every
    /// 32-bit integer is a binary64 number: with `k` the place of the leading
    /// bit of `|x|`, the exponent field holds `1023 + k` and the fraction is
    /// `|x|` shifted up until its leading bit is the hidden one.
    pub open spec fn spec_from_i32(x: i32) -> Scalar {
        if x == 0 {
            Scalar { bits: 0 }
        } else {
            let a: int = if x < 0 {
                -x
            } else {
                x as int
            };
            let k = log(2, a);
            let magnitude = (1023 + k) * HIDDEN_BIT + (a * pow2((52 - k) as nat) - HIDDEN_BIT);
            if x < 0 {
                Scalar { bits: (SIGN_BIT + magnitude) as u64 }
            } else {
                Scalar { bits: magnitude as u64 }
            }
        }
    }

    pub open spec fn spec_zero() -> Scalar {
        Scalar { bits: 0 }
    }

    pub open spec fn spec_one() -> Scalar {
        Scalar { bits: 0x3FF0_0000_0000_0000 }
    }

    pub open spec fn spec_two() -> Scalar {
        Scalar { bits: 0x4000_0000_0000_0000 }
    }

    pub open spec fn spec_four() -> Scalar {
        Scalar { bits: 0x4010_0000_0000_0000 }
    }

    pub open spec fn spec_max() -> Scalar {
        Scalar { bits: 0x7FEF_FFFF_FFFF_FFFF }
    }

    pub fn from_bits(bits: u64) -> (r: Scalar)
        ensures
            r.bits == bits,
    {
        Scalar { bits }
    }

    pub fn to_bits(self) -> (r: u64)
        ensures
            r == self.bits,
    {
        self.bits
    }

    /// Positive zero.
    #[verifier::when_used_as_spec(spec_zero)]
    pub fn zero() -> (r: Scalar)
        ensures
            r == Scalar::spec_zero(),
    {
        Scalar { bits: 0 }
    }

    /// The number one.
    #[verifier::when_used_as_spec(spec_one)]
    pub fn one() -> (r: Scalar)
        ensures
            r == Scalar::spec_one(),
    {
        Scalar { bits: 0x3FF0_0000_0000_0000 }
    }

    /// The number two.
    #[verifier::when_used_as_spec(spec_two)]
    pub fn two() -> (r: Scalar)
        ensures
            r == Scalar::spec_two(),
    {
        Scalar { bits: 0x4000_0000_0000_0000 }
    }

    /// The number four.
    #[verifier::when_used_as_spec(spec_four)]
    pub fn four() -> (r: Scalar)
        ensures
            r == Scalar::spec_four(),
    {
        Scalar { bits: 0x4010_0000_0000_0000 }
    }

    /// The largest finite number.
    #[verifier::when_used_as_spec(spec_max)]
    pub fn max() -> (r: Scalar)
        ensures
            r == Scalar::spec_max(),
    {
        Scalar { bits: 0x7FEF_FFFF_FFFF_FFFF }
    }

    /// The value of a 32-bit integer, exactly.
    #[verifier::when_used_as_spec(spec_from_i32)]
    pub fn from_i32(x: i32) -> (r: Scalar)
        ensures
            r == Scalar::spec_from_i32(x),
            !r.spec_is_nan(),
    {
        if x == 0 {
            return Scalar { bits: 0 };
        }
        let a: u64 = if x < 0 {
            (-(x as i64)) as u64
        } else {
            x as u64
        };
        let mut m = a;
        let mut e: u64 = 1075;
        proof {
            lemma2_to64();
            assert(a * pow2(0) == a);
        }
        while m < HIDDEN_BIT
            invariant
                1 <= a <= 0x8000_0000,
                1023 <= e <= 1075,
                m == a * pow2((1075 - e) as nat),
                m < 2 * HIDDEN_BIT,
                m < HIDDEN_BIT ==> e > 1023,
            decreases e,
        {
            proof {
                lemma_pow2_unfold((1075 - e + 1) as nat);
                lemma_doubling(a as int, pow2((1075 - e) as nat) as int);
                if e == 1024 {
                    lemma2_to64_rest();
                    assert(a * pow2(52) >= pow2(52)) by (nonlinear_arith)
                        requires
                            a >= 1,
                    ;
                }
            }
            m = m * 2;
            e = e - 1;
        }
        proof {
            lemma_leading_bit(a as int, (e - 1023) as nat);
        }
        let magnitude = e * HIDDEN_BIT + (m - HIDDEN_BIT);
        if x < 0 {
            Scalar { bits: SIGN_BIT + magnitude }
        } else {
            Scalar { bits: magnitude }
        }
    }

    #[verifier::when_used_as_spec(spec_is_nan)]
    pub fn is_nan(self) -> (r: bool)
        ensures
            r == self.spec_is_nan(),
    {
        let m = if self.bits >= SIGN_BIT {
            self.bits - SIGN_BIT
        } else {
            self.bits
        };
        m > INFINITY_BITS
    }

    /// The sign bit flipped; NaNs and zeros included.
    #[verifier::when_used_as_spec(spec_neg)]
    pub fn neg(self) -> (r: Scalar)
        ensures
            r == self.spec_neg(),
    {
        if self.bits >= SIGN_BIT {
            Scalar { bits: self.bits - SIGN_BIT }
        } else {
            Scalar { bits: self.bits + SIGN_BIT }
        }
    }

    /// The sign bit cleared.
    #[verifier::when_used_as_spec(spec_abs)]
    pub fn abs(self) -> (r: Scalar)
        ensures
            r == self.spec_abs(),
    {
        if self.bits >= SIGN_BIT {
            Scalar { bits: self.bits - SIGN_BIT }
        } else {
            self
        }
    }

    #[verifier::when_used_as_spec(spec_add)]
    pub fn add(self, rhs: Scalar) -> (r: Scalar)
        ensures
            r == self.spec_add(rhs),
    {
        Scalar { bits: soft_add(self.bits, rhs.bits) }
    }

    #[verifier::when_used_as_spec(spec_sub)]
    pub fn sub(self, rhs: Scalar) -> (r: Scalar)
        ensures
            r == self.spec_sub(rhs),
    {
        Scalar { bits: soft_sub(self.bits, rhs.bits) }
    }

    #[verifier::when_used_as_spec(spec_mul)]
    pub fn mul(self, rhs: Scalar) -> (r: Scalar)
        ensures
            r == self.spec_mul(rhs),
    {
        Scalar { bits: soft_mul(self.bits, rhs.bits) }
    }

    #[verifier::when_used_as_spec(spec_div)]
    pub fn div(self, rhs: Scalar) -> (r: Scalar)
        ensures
            r == self.spec_div(rhs),
    {
        Scalar { bits: soft_div(self.bits, rhs.bits) }
    }

    /// The square root, correctly rounded. The root of a number that is not
    /// below zero is such a number again; anything else has a NaN for root.
    #[verifier::when_used_as_spec(spec_sqrt)]
    pub fn sqrt(self) -> (r: Scalar)
        ensures
            r == self.spec_sqrt(),
            Scalar::spec_zero().spec_le(self) <==> Scalar::spec_zero().spec_le(r),
            !Scalar::spec_zero().spec_le(self) <==> r.spec_is_nan(),
    {
        let bits = self.bits;
        if self.is_nan() {
            return if (bits / QUIET_BIT) % 2 == 1 {
                self
            } else {
                Scalar { bits: bits + QUIET_BIT }
            };
        }
        if bits == 0 || bits == SIGN_BIT || bits == INFINITY_BITS {
            return self;
        }
        if bits >= SIGN_BIT {
            return Scalar { bits: INVALID_BITS };
        }
        // The significand with its hidden bit, and the exponent raised by 52.
        let mut m = bits;
        let mut u: u64 = 53;
        if bits < HIDDEN_BIT {
            proof {
                lemma2_to64();
                assert(bits * pow2(0) == bits);
            }
            while m < HIDDEN_BIT
                invariant
                    1 <= bits < HIDDEN_BIT,
                    1 <= u <= 53,
                    m == bits * pow2((53 - u) as nat),
                    m < 2 * HIDDEN_BIT,
                    m < HIDDEN_BIT ==> u > 1,
                decreases u,
            {
                proof {
                    lemma_pow2_unfold((53 - u + 1) as nat);
                    lemma_doubling(bits as int, pow2((53 - u) as nat) as int);
                    if u == 2 {
                        lemma2_to64_rest();
                        assert(bits * pow2(52) >= pow2(52)) by (nonlinear_arith)
                            requires
                                bits >= 1,
                        ;
                    }
                }
                m = m * 2;
                u = u - 1;
            }
            proof {
                lemma_leading_bit(bits as int, (u - 1) as nat);
            }
        } else {
            m = HIDDEN_BIT + bits % HIDDEN_BIT;
            u = bits / HIDDEN_BIT + 52;
        }
        assert((m as int, u - 52) == parts(bits));
        assert(HIDDEN_BIT <= m < 2 * HIDDEN_BIT);
        let wide = m as u128 * 0x10_0000_0000_0000;
        assert(wide == m * HIDDEN_BIT);
        let (n, f) = if u % 2 == 0 {
            (2 * wide, u / 2 + 485)
        } else {
            (wide, (u - 1) / 2 + 486)
        };
        let s = floor_root_of(n);
        let q = if n > s * s + s {
            s + 1
        } else {
            s
        };
        proof {
            lemma_floor_root_is(n as int, s as int);
            lemma_squares_in_order(HIDDEN_BIT as int, s as int + 1);
        }
        Scalar { bits: f * HIDDEN_BIT + (q as u64 - HIDDEN_BIT) }
    }

    /// The rank as a machine integer.
    fn key(self) -> (k: i64)
        requires
            !self.spec_is_nan(),
        ensures
            k == self.rank(),
    {
        if self.bits >= SIGN_BIT {
            -((self.bits - SIGN_BIT) as i64)
        } else {
            self.bits as i64
        }
    }

    #[verifier::when_used_as_spec(spec_lt)]
    pub fn lt(self, rhs: Scalar) -> (r: bool)
        ensures
            r == self.spec_lt(rhs),
    {
        if self.is_nan() || rhs.is_nan() {
            false
        } else {
            self.key() < rhs.key()
        }
    }

    #[verifier::when_used_as_spec(spec_le)]
    pub fn le(self, rhs: Scalar) -> (r: bool)
        ensures
            r == self.spec_le(rhs),
    {
        if self.is_nan() || rhs.is_nan() {
            false
        } else {
            self.key() <= rhs.key()
        }
    }

    /// `self > rhs`, that is `rhs < self`.
    pub fn gt(self, rhs: Scalar) -> (r: bool)
        ensures
            r == rhs.spec_lt(self),
    {
        rhs.lt(self)
    }

    /// `self >= rhs`, that is `rhs <= self`.
    pub fn ge(self, rhs: Scalar) -> (r: bool)
        ensures
            r == rhs.spec_le(self),
    {
        rhs.le(self)
    }

    /// Numeric equality: false for a NaN, true for the two zeros.
    #[verifier::when_used_as_spec(spec_same)]
    pub fn same(self, rhs: Scalar) -> (r: bool)
        ensures
            r == self.spec_same(rhs),
    {
        if self.is_nan() || rhs.is_nan() {
            false
        } else {
            self.key() == rhs.key()
        }
    }
}

} // verus!
