//! Colors: three unclamped scalar channels and an 8-bit opacity that all
//! arithmetic carries through from the left operand. Clamping happens once,
//! when a color is turned into bytes.

use vstd::prelude::*;
use vstd::arithmetic::div_mod::{
    lemma_basic_div,
    lemma_div_basics_4,
    lemma_div_denominator,
    lemma_div_is_ordered,
    lemma_div_is_ordered_by_denominator,
};
use vstd::arithmetic::power2::{
    lemma2_to64_rest,
    lemma_pow2_pos,
    lemma_pow2_strictly_increases,
    lemma_pow2_unfold,
    pow2,
};
use vstd::bits::lemma_u64_shr_is_div;
use vstd::std_specs::cmp::PartialEqSpecImpl;
use vstd::std_specs::ops::{AddSpecImpl, MulSpecImpl, SubSpecImpl};
use crate::ray_tracer::scalar::{Scalar, HIDDEN_BIT, SIGN_BIT};
use crate::ray_tracer::util::{f64_is_equal, spec_is_equal};

verus! {

/// The pattern of the number one.
pub const ONE_BITS: u64 = 0x3FF0_0000_0000_0000;

#[derive(Debug, Clone, Copy)]
pub struct Color {
    pub r: Scalar,
    pub g: Scalar,
    pub b: Scalar,
    pub a: u8,
}

/// The multiple of `g` nearest to `p`; of two equally near, the even multiple.
#[verifier::opaque]
pub open spec fn round_to_multiple(p: int, g: int) -> int {
    let q = p / g;
    let r = p % g;
    if 2 * r > g || (2 * r == g && q % 2 == 1) {
        (q + 1) * g
    } else {
        q * g
    }
}

/// The significand of the product with 255, rounded as binary64 arithmetic
/// rounds it, of a number whose own significand is `m`: the product has 60 or
/// 61 bits, of which 53 are kept, so the values it can round to are 128 or 256
/// apart.
pub open spec fn rounded_product(m: int) -> int {
    let p = 255 * m;
    if p < 0x1000_0000_0000_0000 {
        round_to_multiple(p, 128)
    } else {
        round_to_multiple(p, 256)
    }
}

/// The integer part of 255 times a number between zero and one, given by its
/// pattern `bits`, where the product is first rounded to a binary64 value:
/// to 53 significant bits, to nearest, ties to even.
///
/// With `e` the biased exponent and `m` the significand of the number, its
/// value is `m * 2^(e - 1075)`. A number with `e` zero is too small for its
/// product to reach one.
pub open spec fn unit_byte(bits: u64) -> int
    recommends
        bits <= ONE_BITS,
{
    let e = bits / HIDDEN_BIT;
    let m = HIDDEN_BIT + bits % HIDDEN_BIT;
    if e == 0 {
        0
    } else {
        rounded_product(m as int) / (pow2((1075 - e) as nat) as int)
    }
}

/// The byte of a channel: 0 for a NaN, 255 above one, 0 at or below zero, and
/// in between the integer part of 255 times the channel.
pub open spec fn spec_channel_to_u8(channel: Scalar) -> u8 {
    if channel.is_nan() {
        0
    } else if Scalar::one().lt(channel) {
        255
    } else if channel.rank() <= 0 {
        0
    } else {
        unit_byte(channel.bits) as u8
    }
}

/// The rounded product with 255 of a number from zero to one, truncated.
fn unit_to_byte(bits: u64) -> (r: u8)
    requires
        bits <= ONE_BITS,
    ensures
        r == unit_byte(bits),
{
    let e = bits / HIDDEN_BIT;
    let m = HIDDEN_BIT + bits % HIDDEN_BIT;
    let p = 255 * m;
    let g: u64 = if p < 0x1000_0000_0000_0000 {
        128
    } else {
        256
    };
    let q = p / g;
    let rest = p % g;
    let v = if 2 * rest > g || (2 * rest == g && q % 2 == 1) {
        (q + 1) * g
    } else {
        q * g
    };
    proof {
        reveal(round_to_multiple);
    }
    assert(v == rounded_product(m as int));
    assert(v <= 255 * 0x20_0000_0000_0000);
    if e < 1015 {
        proof {
            lemma_unit_byte_small(bits);
        }
        0
    } else {
        let d = 1075 - e;
        let n = v >> d;
        proof {
            lemma_u64_shr_is_div(v, d);
            lemma_unit_byte_range(bits);
        }
        n as u8
    }
}

/// A number up to one scales to at most 255.
proof fn lemma_unit_byte_range(bits: u64)
    requires
        bits <= ONE_BITS,
    ensures
        0 <= unit_byte(bits) <= 255,
{
    let e = bits / HIDDEN_BIT;
    if e != 0 {
        let m = HIDDEN_BIT + bits % HIDDEN_BIT;
        let v = rounded_product(m as int);
        let d = (1075 - e) as nat;
        lemma_rounded_product_is_near(m as int);
        assert(e == 1023 ==> v == 255 * 0x10_0000_0000_0000) by {
            reveal(round_to_multiple);
        }
        lemma2_to64_rest();
        lemma_pow2_pos(d);
        lemma_div_basics_4(v, pow2(d) as int);
        if d == 52 {
            // Only the number one has this exponent, and its product is exact.
            assert(pow2(d) == 0x10_0000_0000_0000);
            assert(v / 0x10_0000_0000_0000 == 255);
        } else {
            lemma_pow2_strictly_increases(52, d);
            lemma_pow2_unfold(53);
            if d > 53 {
                lemma_pow2_strictly_increases(53, d);
            }
            assert(pow2(d) >= 0x20_0000_0000_0000);
            lemma_div_is_ordered_by_denominator(v, 0x20_0000_0000_0000, pow2(d) as int);
            assert(v / 0x20_0000_0000_0000 <= 255);
        }
    }
}

/// Below 2^-8 the product stays below one.
proof fn lemma_unit_byte_small(bits: u64)
    requires
        bits <= ONE_BITS,
        bits / HIDDEN_BIT < 1015,
    ensures
        unit_byte(bits) == 0,
{
    let e = bits / HIDDEN_BIT;
    if e != 0 {
        let m = HIDDEN_BIT + bits % HIDDEN_BIT;
        let v = rounded_product(m as int);
        lemma_rounded_product_is_near(m as int);
        let d = (1075 - e) as nat;
        lemma2_to64_rest();
        assert(pow2(61) == 0x2000_0000_0000_0000);
        if d > 61 {
            lemma_pow2_strictly_increases(61, d);
        }
        assert(v < pow2(d));
        lemma_basic_div(v, pow2(d) as int);
    }
}

/// Clamps a channel to the range from zero to one and scales it to a byte.
#[verifier::when_used_as_spec(spec_channel_to_u8)]
pub fn channel_to_u8(channel: Scalar) -> (r: u8)
    ensures
        r == spec_channel_to_u8(channel),
        Scalar::one().le(channel) ==> r == 255,
        channel.le(Scalar::zero()) ==> r == 0,
{
    let mut value = channel;
    if value.gt(Scalar::one()) {
        value = Scalar::one();
    } else if value.lt(Scalar::zero()) {
        value = Scalar::zero();
    }
    proof {
        lemma_unit_byte_ends();
    }
    if value.is_nan() || value.bits >= SIGN_BIT {
        0
    } else {
        unit_to_byte(value.bits)
    }
}

/// Zero scales to 0 and one to 255.
proof fn lemma_unit_byte_ends()
    ensures
        unit_byte(0) == 0,
        unit_byte(ONE_BITS) == 255,
{
    lemma2_to64_rest();
    assert(ONE_BITS / HIDDEN_BIT == 1023);
    assert(ONE_BITS % HIDDEN_BIT == 0);
    assert(pow2(52) == 0x10_0000_0000_0000);
    let p = 255 * 0x10_0000_0000_0000int;
    assert(p % 128 == 0);
    assert(round_to_multiple(p, 128) == p) by {
        reveal(round_to_multiple);
    }
    assert(p / 0x10_0000_0000_0000 == 255);
}

/// The rounded product of a significand is a multiple of 128 within 128 of
/// the product itself, and lies between the products of the least and of the
/// greatest significand, which need no rounding.
proof fn lemma_rounded_product_is_near(m: int)
    requires
        HIDDEN_BIT <= m < 2 * HIDDEN_BIT,
    ensures
        rounded_product(m) % 128 == 0,
        255 * m - 128 <= rounded_product(m) <= 255 * m + 128,
        255 * HIDDEN_BIT <= rounded_product(m) <= 255 * (2 * HIDDEN_BIT),
        255 * m < 0x1000_0000_0000_0000 ==> rounded_product(m) <= 0x1000_0000_0000_0000,
        255 * m >= 0x1000_0000_0000_0000 ==> rounded_product(m) >= 0x1000_0000_0000_0000,
{
    let p = 255 * m;
    let v = rounded_product(m);
    if p < 0x1000_0000_0000_0000 {
        lemma_round_is_near(p, 128);
    } else {
        lemma_round_is_near(p, 256);
        assert(v % 128 == 0) by {
            assert(v % 256 == 0);
        }
    }
    lemma_multiple_below(255 * HIDDEN_BIT, v);
    lemma_multiple_below(v, 255 * (2 * HIDDEN_BIT));
    if p < 0x1000_0000_0000_0000 {
        lemma_multiple_below(v, 0x1000_0000_0000_0000);
    } else {
        lemma_multiple_below(0x1000_0000_0000_0000, v);
    }
}

/// Rounding keeps the order of two significands.
proof fn lemma_rounded_product_monotone(m1: int, m2: int)
    requires
        HIDDEN_BIT <= m1 <= m2 < 2 * HIDDEN_BIT,
    ensures
        rounded_product(m1) <= rounded_product(m2),
{
    let lower = 255 * m1;
    let upper = 255 * m2;
    let limit = 0x1000_0000_0000_0000int;
    if lower == upper {
    } else if upper < limit {
        lemma_round_keeps_order(lower, upper, 128);
    } else if lower >= limit {
        lemma_round_keeps_order(lower, upper, 256);
    } else {
        // The two lie on either side of 2^60.
        lemma_rounded_product_is_near(m1);
        lemma_rounded_product_is_near(m2);
    }
}

/// The rounded value is a multiple of the spacing, at most half of it away.
proof fn lemma_round_is_near(p: int, g: int)
    requires
        0 <= p,
        g == 128 || g == 256,
    ensures
        round_to_multiple(p, g) % g == 0,
        2 * (round_to_multiple(p, g) - p) <= g,
        2 * (p - round_to_multiple(p, g)) <= g,
{
    reveal(round_to_multiple);
    let q = p / g;
    assert(p == q * g + p % g);
    assert((q * g) % g == 0) by (nonlinear_arith)
        requires
            g == 128 || g == 256,
    ;
    assert(((q + 1) * g) % g == 0) by (nonlinear_arith)
        requires
            g == 128 || g == 256,
    ;
}

/// Of two multiples of 128, one that exceeds the other by less than 128 does
/// not exceed it.
proof fn lemma_multiple_below(a: int, b: int)
    requires
        a % 128 == 0,
        b % 128 == 0,
        a < b + 128,
    ensures
        a <= b,
{
}

/// Rounding to one spacing keeps the order.
proof fn lemma_round_keeps_order(lower: int, upper: int, g: int)
    requires
        0 <= lower < upper,
        g == 128 || g == 256,
    ensures
        round_to_multiple(lower, g) <= round_to_multiple(upper, g),
{
    lemma_round_is_near(lower, g);
    lemma_round_is_near(upper, g);
    let v1 = round_to_multiple(lower, g);
    let v2 = round_to_multiple(upper, g);
    // Both are multiples of the spacing, and the first is less than one
    // spacing above the second.
    assert(2 * (v1 - v2) < 2 * g);
    if g == 128 {
        lemma_multiple_below(v1, v2);
    } else {
        assert(v1 % 256 == 0 && v2 % 256 == 0 && v1 < v2 + 256 ==> v1 <= v2);
    }
}

/// Among the numbers from zero to one, a greater one never has a smaller byte.
pub proof fn lemma_unit_byte_monotone(a: u64, b: u64)
    requires
        a <= b <= ONE_BITS,
    ensures
        unit_byte(a) <= unit_byte(b),
{
    let ea = a / HIDDEN_BIT;
    let eb = b / HIDDEN_BIT;
    lemma_unit_byte_range(a);
    lemma_unit_byte_range(b);
    if ea == 0 {
    } else {
        let ma = HIDDEN_BIT + a % HIDDEN_BIT;
        let mb = HIDDEN_BIT + b % HIDDEN_BIT;
        let va = rounded_product(ma as int);
        let vb = rounded_product(mb as int);
        let da = (1075 - ea) as nat;
        let db = (1075 - eb) as nat;
        assert(unit_byte(a) == va / (pow2(da) as int));
        assert(unit_byte(b) == vb / (pow2(db) as int));
        lemma_pow2_pos(da);
        lemma_pow2_pos(db);
        if ea == eb {
            lemma_rounded_product_monotone(ma as int, mb as int);
            lemma_div_is_ordered(va, vb, pow2(db) as int);
        } else {
            // One exponent apart or more: the smaller number's product ends
            // below where the greater one's begins.
            lemma_rounded_product_is_near(ma as int);
            lemma_rounded_product_is_near(mb as int);
            let top = 255 * (2 * HIDDEN_BIT);
            let bottom = 255 * HIDDEN_BIT;
            lemma_div_is_ordered(va, top, pow2(da) as int);
            lemma_div_is_ordered(bottom, vb, pow2(db) as int);
            lemma_pow2_unfold((db + 1) as nat);
            if da > db + 1 {
                lemma_pow2_strictly_increases((db + 1) as nat, da);
            }
            lemma_div_is_ordered_by_denominator(top, 2 * pow2(db) as int, pow2(da) as int);
            lemma_div_denominator(top, 2, pow2(db) as int);
            assert(top / 2 == bottom);
        }
    }
}

/// The conversion of a channel to a byte is monotone: of two numbers, the
/// greater never gets the smaller byte. This holds over the whole line, with
/// 255 from one upwards and 0 from zero downwards.
pub proof fn law_channel_to_u8_monotone(a: Scalar, b: Scalar)
    requires
        a.le(b),
    ensures
        channel_to_u8(a) <= channel_to_u8(b),
        Scalar::one().le(b) ==> channel_to_u8(b) == 255,
        a.le(Scalar::zero()) ==> channel_to_u8(a) == 0,
{
    lemma_unit_byte_ends();
    if Scalar::one().lt(b) {
        if !Scalar::one().lt(a) && a.rank() > 0 {
            lemma_unit_byte_range(a.bits);
        }
    } else if a.rank() <= 0 {
    } else {
        lemma_unit_byte_monotone(a.bits, b.bits);
        lemma_unit_byte_range(a.bits);
        lemma_unit_byte_range(b.bits);
    }
}

impl Color {
    pub open spec fn spec_new(r: Scalar, g: Scalar, b: Scalar) -> Color {
        Color { r, g, b, a: 255 }
    }

    pub open spec fn spec_black() -> Color {
        Color { r: Scalar::zero(), g: Scalar::zero(), b: Scalar::zero(), a: 255 }
    }

    pub open spec fn spec_white() -> Color {
        Color { r: Scalar::one(), g: Scalar::one(), b: Scalar::one(), a: 255 }
    }

    /// The channel-wise sum, with the opacity of `self`.
    pub open spec fn plus(self, rhs: Color) -> Color {
        Color { r: self.r.add(rhs.r), g: self.g.add(rhs.g), b: self.b.add(rhs.b), a: self.a }
    }

    /// The channel-wise difference, with the opacity of `self`.
    pub open spec fn minus(self, rhs: Color) -> Color {
        Color { r: self.r.sub(rhs.r), g: self.g.sub(rhs.g), b: self.b.sub(rhs.b), a: self.a }
    }

    /// The channel-wise product, with the opacity of `self`.
    pub open spec fn times(self, rhs: Color) -> Color {
        Color { r: self.r.mul(rhs.r), g: self.g.mul(rhs.g), b: self.b.mul(rhs.b), a: self.a }
    }

    /// Every channel multiplied by `k`; the opacity is kept.
    pub open spec fn scaled(self, k: Scalar) -> Color {
        Color { r: self.r.mul(k), g: self.g.mul(k), b: self.b.mul(k), a: self.a }
    }

    /// The red, green, blue and opacity bytes, in that order.
    pub open spec fn spec_as_u8_array(&self) -> [u8; 4] {
        [channel_to_u8(self.r), channel_to_u8(self.g), channel_to_u8(self.b), self.a]
    }

    /// Whether the channels are approximately equal and the opacities equal.
    pub open spec fn close_to(self, rhs: Color) -> bool {
        &&& spec_is_equal(self.r, rhs.r)
        &&& spec_is_equal(self.g, rhs.g)
        &&& spec_is_equal(self.b, rhs.b)
        &&& self.a == rhs.a
    }

    /// An opaque color.
    #[verifier::when_used_as_spec(spec_new)]
    pub fn new(r: Scalar, g: Scalar, b: Scalar) -> (c: Color)
        ensures
            c == Color::spec_new(r, g, b),
    {
        Color { r, g, b, a: 255 }
    }

    #[verifier::when_used_as_spec(spec_black)]
    pub fn black() -> (c: Color)
        ensures
            c == Color::spec_black(),
    {
        Color::new(Scalar::zero(), Scalar::zero(), Scalar::zero())
    }

    #[verifier::when_used_as_spec(spec_white)]
    pub fn white() -> (c: Color)
        ensures
            c == Color::spec_white(),
    {
        Color::new(Scalar::one(), Scalar::one(), Scalar::one())
    }

    /// The color as it is written to an output buffer: each channel clamped
    /// and scaled to a byte, then the opacity.
    #[verifier::when_used_as_spec(spec_as_u8_array)]
    pub fn as_u8_array(&self) -> (bytes: [u8; 4])
        ensures
            bytes == self.spec_as_u8_array(),
            bytes@ == seq![
                channel_to_u8(self.r),
                channel_to_u8(self.g),
                channel_to_u8(self.b),
                self.a,
            ],
    {
        [channel_to_u8(self.r), channel_to_u8(self.g), channel_to_u8(self.b), self.a]
    }
}

impl core::ops::Add<Color> for Color {
    type Output = Color;

    fn add(self, rhs: Color) -> (r: Color) {
        Color {
            r: self.r.add(rhs.r),
            g: self.g.add(rhs.g),
            b: self.b.add(rhs.b),
            a: self.a,
        }
    }
}

impl AddSpecImpl<Color> for Color {
    open spec fn obeys_add_spec() -> bool {
        true
    }

    open spec fn add_req(self, rhs: Color) -> bool {
        true
    }

    open spec fn add_spec(self, rhs: Color) -> Color {
        self.plus(rhs)
    }
}

impl<'a> core::ops::Add<Color> for &'a Color {
    type Output = Color;

    fn add(self, rhs: Color) -> (r: Color) {
        Color {
            r: self.r.add(rhs.r),
            g: self.g.add(rhs.g),
            b: self.b.add(rhs.b),
            a: self.a,
        }
    }
}

impl<'a> AddSpecImpl<Color> for &'a Color {
    open spec fn obeys_add_spec() -> bool {
        true
    }

    open spec fn add_req(self, rhs: Color) -> bool {
        true
    }

    open spec fn add_spec(self, rhs: Color) -> Color {
        self.plus(rhs)
    }
}

impl<'b> core::ops::Add<&'b Color> for Color {
    type Output = Color;

    fn add(self, rhs: &'b Color) -> (r: Color) {
        Color {
            r: self.r.add(rhs.r),
            g: self.g.add(rhs.g),
            b: self.b.add(rhs.b),
            a: self.a,
        }
    }
}

impl<'b> AddSpecImpl<&'b Color> for Color {
    open spec fn obeys_add_spec() -> bool {
        true
    }

    open spec fn add_req(self, rhs: &'b Color) -> bool {
        true
    }

    open spec fn add_spec(self, rhs: &'b Color) -> Color {
        self.plus(*rhs)
    }
}

impl<'a, 'b> core::ops::Add<&'b Color> for &'a Color {
    type Output = Color;

    fn add(self, rhs: &'b Color) -> (r: Color) {
        Color {
            r: self.r.add(rhs.r),
            g: self.g.add(rhs.g),
            b: self.b.add(rhs.b),
            a: self.a,
        }
    }
}

impl<'a, 'b> AddSpecImpl<&'b Color> for &'a Color {
    open spec fn obeys_add_spec() -> bool {
        true
    }

    open spec fn add_req(self, rhs: &'b Color) -> bool {
        true
    }

    open spec fn add_spec(self, rhs: &'b Color) -> Color {
        self.plus(*rhs)
    }
}

impl core::ops::Sub<Color> for Color {
    type Output = Color;

    fn sub(self, rhs: Color) -> (r: Color) {
        Color {
            r: self.r.sub(rhs.r),
            g: self.g.sub(rhs.g),
            b: self.b.sub(rhs.b),
            a: self.a,
        }
    }
}

impl SubSpecImpl<Color> for Color {
    open spec fn obeys_sub_spec() -> bool {
        true
    }

    open spec fn sub_req(self, rhs: Color) -> bool {
        true
    }

    open spec fn sub_spec(self, rhs: Color) -> Color {
        self.minus(rhs)
    }
}

impl<'a> core::ops::Sub<Color> for &'a Color {
    type Output = Color;

    fn sub(self, rhs: Color) -> (r: Color) {
        Color {
            r: self.r.sub(rhs.r),
            g: self.g.sub(rhs.g),
            b: self.b.sub(rhs.b),
            a: self.a,
        }
    }
}

impl<'a> SubSpecImpl<Color> for &'a Color {
    open spec fn obeys_sub_spec() -> bool {
        true
    }

    open spec fn sub_req(self, rhs: Color) -> bool {
        true
    }

    open spec fn sub_spec(self, rhs: Color) -> Color {
        self.minus(rhs)
    }
}

impl<'b> core::ops::Sub<&'b Color> for Color {
    type Output = Color;

    fn sub(self, rhs: &'b Color) -> (r: Color) {
        Color {
            r: self.r.sub(rhs.r),
            g: self.g.sub(rhs.g),
            b: self.b.sub(rhs.b),
            a: self.a,
        }
    }
}

impl<'b> SubSpecImpl<&'b Color> for Color {
    open spec fn obeys_sub_spec() -> bool {
        true
    }

    open spec fn sub_req(self, rhs: &'b Color) -> bool {
        true
    }

    open spec fn sub_spec(self, rhs: &'b Color) -> Color {
        self.minus(*rhs)
    }
}

impl<'a, 'b> core::ops::Sub<&'b Color> for &'a Color {
    type Output = Color;

    fn sub(self, rhs: &'b Color) -> (r: Color) {
        Color {
            r: self.r.sub(rhs.r),
            g: self.g.sub(rhs.g),
            b: self.b.sub(rhs.b),
            a: self.a,
        }
    }
}

impl<'a, 'b> SubSpecImpl<&'b Color> for &'a Color {
    open spec fn obeys_sub_spec() -> bool {
        true
    }

    open spec fn sub_req(self, rhs: &'b Color) -> bool {
        true
    }

    open spec fn sub_spec(self, rhs: &'b Color) -> Color {
        self.minus(*rhs)
    }
}

impl core::ops::Mul<Color> for Color {
    type Output = Color;

    fn mul(self, rhs: Color) -> (r: Color) {
        Color {
            r: self.r.mul(rhs.r),
            g: self.g.mul(rhs.g),
            b: self.b.mul(rhs.b),
            a: self.a,
        }
    }
}

impl MulSpecImpl<Color> for Color {
    open spec fn obeys_mul_spec() -> bool {
        true
    }

    open spec fn mul_req(self, rhs: Color) -> bool {
        true
    }

    open spec fn mul_spec(self, rhs: Color) -> Color {
        self.times(rhs)
    }
}

impl<'a> core::ops::Mul<Color> for &'a Color {
    type Output = Color;

    fn mul(self, rhs: Color) -> (r: Color) {
        Color {
            r: self.r.mul(rhs.r),
            g: self.g.mul(rhs.g),
            b: self.b.mul(rhs.b),
            a: self.a,
        }
    }
}

impl<'a> MulSpecImpl<Color> for &'a Color {
    open spec fn obeys_mul_spec() -> bool {
        true
    }

    open spec fn mul_req(self, rhs: Color) -> bool {
        true
    }

    open spec fn mul_spec(self, rhs: Color) -> Color {
        self.times(rhs)
    }
}

impl<'b> core::ops::Mul<&'b Color> for Color {
    type Output = Color;

    fn mul(self, rhs: &'b Color) -> (r: Color) {
        Color {
            r: self.r.mul(rhs.r),
            g: self.g.mul(rhs.g),
            b: self.b.mul(rhs.b),
            a: self.a,
        }
    }
}

impl<'b> MulSpecImpl<&'b Color> for Color {
    open spec fn obeys_mul_spec() -> bool {
        true
    }

    open spec fn mul_req(self, rhs: &'b Color) -> bool {
        true
    }

    open spec fn mul_spec(self, rhs: &'b Color) -> Color {
        self.times(*rhs)
    }
}

impl<'a, 'b> core::ops::Mul<&'b Color> for &'a Color {
    type Output = Color;

    fn mul(self, rhs: &'b Color) -> (r: Color) {
        Color {
            r: self.r.mul(rhs.r),
            g: self.g.mul(rhs.g),
            b: self.b.mul(rhs.b),
            a: self.a,
        }
    }
}

impl<'a, 'b> MulSpecImpl<&'b Color> for &'a Color {
    open spec fn obeys_mul_spec() -> bool {
        true
    }

    open spec fn mul_req(self, rhs: &'b Color) -> bool {
        true
    }

    open spec fn mul_spec(self, rhs: &'b Color) -> Color {
        self.times(*rhs)
    }
}

impl core::ops::Mul<Scalar> for Color {
    type Output = Color;

    fn mul(self, rhs: Scalar) -> (r: Color) {
        Color { r: self.r.mul(rhs), g: self.g.mul(rhs), b: self.b.mul(rhs), a: self.a }
    }
}

impl MulSpecImpl<Scalar> for Color {
    open spec fn obeys_mul_spec() -> bool {
        true
    }

    open spec fn mul_req(self, rhs: Scalar) -> bool {
        true
    }

    open spec fn mul_spec(self, rhs: Scalar) -> Color {
        self.scaled(rhs)
    }
}

impl<'a> core::ops::Mul<Scalar> for &'a Color {
    type Output = Color;

    fn mul(self, rhs: Scalar) -> (r: Color) {
        Color { r: self.r.mul(rhs), g: self.g.mul(rhs), b: self.b.mul(rhs), a: self.a }
    }
}

impl<'a> MulSpecImpl<Scalar> for &'a Color {
    open spec fn obeys_mul_spec() -> bool {
        true
    }

    open spec fn mul_req(self, rhs: Scalar) -> bool {
        true
    }

    open spec fn mul_spec(self, rhs: Scalar) -> Color {
        self.scaled(rhs)
    }
}

impl<'b> core::ops::Mul<&'b Scalar> for Color {
    type Output = Color;

    fn mul(self, rhs: &'b Scalar) -> (r: Color) {
        Color { r: self.r.mul(*rhs), g: self.g.mul(*rhs), b: self.b.mul(*rhs), a: self.a }
    }
}

impl<'b> MulSpecImpl<&'b Scalar> for Color {
    open spec fn obeys_mul_spec() -> bool {
        true
    }

    open spec fn mul_req(self, rhs: &'b Scalar) -> bool {
        true
    }

    open spec fn mul_spec(self, rhs: &'b Scalar) -> Color {
        self.scaled(*rhs)
    }
}

impl<'a, 'b> core::ops::Mul<&'b Scalar> for &'a Color {
    type Output = Color;

    fn mul(self, rhs: &'b Scalar) -> (r: Color) {
        Color { r: self.r.mul(*rhs), g: self.g.mul(*rhs), b: self.b.mul(*rhs), a: self.a }
    }
}

impl<'a, 'b> MulSpecImpl<&'b Scalar> for &'a Color {
    open spec fn obeys_mul_spec() -> bool {
        true
    }

    open spec fn mul_req(self, rhs: &'b Scalar) -> bool {
        true
    }

    open spec fn mul_spec(self, rhs: &'b Scalar) -> Color {
        self.scaled(*rhs)
    }
}

impl PartialEq for Color {
    /// Approximate equality of the channels, exact equality of the opacity.
    fn eq(&self, other: &Color) -> (r: bool) {
        f64_is_equal(self.r, other.r) && f64_is_equal(self.g, other.g) && f64_is_equal(
            self.b,
            other.b,
        ) && self.a == other.a
    }
}

impl PartialEqSpecImpl for Color {
    open spec fn obeys_eq_spec() -> bool {
        true
    }

    open spec fn eq_spec(&self, other: &Color) -> bool {
        self.close_to(*other)
    }
}

} // verus!
