//! IEEE-754 single-precision values held by their bit patterns.

use vstd::arithmetic::power2::{
    lemma_pow2_adds,
    lemma_pow2_pos,
    lemma_pow2_strictly_increases,
    pow2,
};
use vstd::prelude::*;
use vstd::std_specs::cmp::PartialEqSpec;

verus! {

/// A single-precision value, held as the bits that the native side reads and writes.
///
/// Values are compared as numbers: the two zeros are equal, and a NaN equals nothing.
#[derive(Clone, Copy, Debug)]
pub struct Float32 {
    /// The IEEE-754 encoding.
    pub bits: u32,
}

impl Float32 {
    /// Whether the sign bit is set.
    pub open spec fn negative(self) -> bool {
        self.bits >= 0x8000_0000
    }

    /// The exponent field.
    pub open spec fn exponent(self) -> int {
        (self.bits % 0x8000_0000) as int / 0x80_0000
    }

    /// The fraction field.
    pub open spec fn fraction(self) -> int {
        (self.bits % 0x8000_0000) as int % 0x80_0000
    }

    /// Whether the encoding is neither an infinity nor a NaN.
    pub open spec fn finite(self) -> bool {
        self.exponent() != 255
    }

    /// Whether the encoding is that of no number.
    pub open spec fn nan(self) -> bool {
        self.exponent() == 255 && self.fraction() != 0
    }

    /// Whether the encoding is that of zero, of either sign.
    pub open spec fn zero(self) -> bool {
        self.bits % 0x8000_0000 == 0
    }

    /// The encoded magnitude in units of the smallest subnormal, 2 to the power of -149.
    pub open spec fn scaled_magnitude(self) -> int {
        if self.exponent() == 0 {
            self.fraction()
        } else {
            (0x80_0000 + self.fraction()) * pow2((self.exponent() - 1) as nat)
        }
    }

    /// The encoded value in units of the smallest subnormal.
    pub open spec fn scaled_value(self) -> int {
        if self.negative() {
            -self.scaled_magnitude()
        } else {
            self.scaled_magnitude()
        }
    }

    /// Whether the value is a finite number between zero and one, both included.
    pub open spec fn in_unit_interval(self) -> bool {
        self.finite() && 0 <= self.scaled_value() <= pow2(149)
    }

    /// The value with the given encoding.
    pub fn from_bits(bits: u32) -> (value: Self)
        ensures
            value.bits == bits,
    {
        Float32 { bits }
    }

    /// The encoding of this value.
    pub fn to_bits(self) -> (bits: u32)
        ensures
            bits == self.bits,
    {
        self.bits
    }

    /// Whether this value is neither infinite nor NaN.
    pub fn is_finite(self) -> (finite: bool)
        ensures
            finite == self.finite(),
    {
        (self.bits % 0x8000_0000) / 0x80_0000 != 255
    }

    /// Whether this value is not a number.
    pub fn is_nan(self) -> (nan: bool)
        ensures
            nan == self.nan(),
    {
        let magnitude: u32 = self.bits % 0x8000_0000;
        magnitude / 0x80_0000 == 255 && magnitude % 0x80_0000 != 0
    }

    /// Whether this value is zero, of either sign.
    pub fn is_zero(self) -> (zero: bool)
        ensures
            zero == self.zero(),
    {
        self.bits % 0x8000_0000 == 0
    }

    /// Whether this value is finite and between zero and one.
    pub fn is_in_unit_interval(self) -> (inside: bool)
        ensures
            inside == self.in_unit_interval(),
    {
        proof {
            self.lemma_unit_interval_bits();
        }
        self.bits <= 0x3f80_0000 || self.bits == 0x8000_0000
    }

    /// The unit interval is an interval of encodings, with negative zero beside it.
    proof fn lemma_unit_interval_bits(self)
        ensures
            self.in_unit_interval() <==> (self.bits <= 0x3f80_0000 || self.bits == 0x8000_0000),
    {
        let e = self.exponent();
        let f = self.fraction();
        let m = self.bits % 0x8000_0000;
        assert(m == 0x80_0000 * e + f);
        assert(0 <= f < 0x80_0000 && 0 <= e <= 255);
        assert(pow2(23) == 0x80_0000 && pow2(24) == 0x100_0000) by {
            vstd::arithmetic::power2::lemma2_to64();
        }
        lemma_pow2_pos(149);
        if e == 0 {
            lemma_pow2_strictly_increases(23, 149);
        } else {
            let scale = pow2((e - 1) as nat);
            lemma_pow2_pos((e - 1) as nat);
            assert(self.scaled_magnitude() > 0) by (nonlinear_arith)
                requires
                    self.scaled_magnitude() == (0x80_0000 + f) * scale,
                    scale > 0,
                    f >= 0,
            ;
            if e <= 126 {
                lemma_pow2_adds(24, (e - 1) as nat);
                if e < 126 {
                    lemma_pow2_strictly_increases((24 + e - 1) as nat, 149);
                }
                assert((0x80_0000 + f) * scale <= 0x100_0000 * scale) by (nonlinear_arith)
                    requires
                        f <= 0x80_0000,
                        scale > 0,
                ;
            } else {
                lemma_pow2_adds(23, (e - 1) as nat);
                if e > 127 {
                    lemma_pow2_strictly_increases(149, (23 + e - 1) as nat);
                }
                assert((0x80_0000 + f) * scale == 0x80_0000 * scale + f * scale)
                    by (nonlinear_arith);
                assert(f > 0 ==> f * scale > 0) by (nonlinear_arith)
                    requires
                        scale > 0,
                ;
                assert(f * scale >= 0) by (nonlinear_arith)
                    requires
                        scale > 0,
                        f >= 0,
                ;
            }
        }
    }
}

impl vstd::std_specs::cmp::PartialEqSpecImpl for Float32 {
    open spec fn obeys_eq_spec() -> bool {
        true
    }

    open spec fn eq_spec(&self, other: &Float32) -> bool {
        !self.nan() && !other.nan() && (self.bits == other.bits || (self.zero() && other.zero()))
    }
}

impl PartialEq for Float32 {
    fn eq(&self, other: &Float32) -> (equal: bool) {
        !self.is_nan() && !other.is_nan() && (self.bits == other.bits || (self.is_zero()
            && other.is_zero()))
    }
}

/// A larger encoding without sign has a larger magnitude.
proof fn lemma_magnitudes_grow(a: Float32, b: Float32)
    requires
        a.bits % 0x8000_0000 < b.bits % 0x8000_0000,
    ensures
        0 <= a.scaled_magnitude() < b.scaled_magnitude(),
{
    let (e, f) = (a.exponent(), a.fraction());
    let (g, h) = (b.exponent(), b.fraction());
    assert(a.bits % 0x8000_0000 == 0x80_0000 * e + f);
    assert(b.bits % 0x8000_0000 == 0x80_0000 * g + h);
    assert(0 <= f < 0x80_0000 && 0 <= h < 0x80_0000 && 0 <= e <= g);
    assert(pow2(0) == 1) by {
        vstd::arithmetic::power2::lemma2_to64();
    }
    if g > 0 {
        let upper = pow2((g - 1) as nat) as int;
        lemma_pow2_pos((g - 1) as nat);
        if e == 0 {
            if g > 1 {
                lemma_pow2_strictly_increases(0, (g - 1) as nat);
            }
            assert((0x80_0000 + h) * upper >= 0x80_0000) by (nonlinear_arith)
                requires
                    h >= 0,
                    upper >= 1,
            ;
        } else {
            let lower = pow2((e - 1) as nat) as int;
            lemma_pow2_pos((e - 1) as nat);
            assert((0x80_0000 + f) * lower >= 0) by (nonlinear_arith)
                requires
                    f >= 0,
                    lower >= 1,
            ;
            if e == g {
                assert((0x80_0000 + f) * lower < (0x80_0000 + h) * lower) by (nonlinear_arith)
                    requires
                        f < h,
                        lower >= 1,
                ;
            } else {
                lemma_pow2_adds(1, (e - 1) as nat);
                assert(pow2(1) == 2) by {
                    vstd::arithmetic::power2::lemma2_to64();
                }
                if e < g - 1 {
                    lemma_pow2_strictly_increases(e as nat, (g - 1) as nat);
                }
                assert((0x80_0000 + f) * lower < (0x80_0000 + h) * upper) by (nonlinear_arith)
                    requires
                        0 <= f < 0x80_0000,
                        h >= 0,
                        lower >= 1,
                        upper >= 2 * lower,
                ;
            }
        }
    }
}

/// Finite values are equal exactly where they stand for the same number, and a NaN equals nothing,
/// not even itself.
pub proof fn law_equality_is_by_number(a: Float32, b: Float32)
    ensures
        a.finite() && b.finite() ==> (a.eq_spec(&b) <==> a.scaled_value() == b.scaled_value()),
        a.nan() ==> !a.eq_spec(&b) && !b.eq_spec(&a),
        a.eq_spec(&b) == b.eq_spec(&a),
{
    let zero = Float32 { bits: 0 };
    let (m, n) = (a.bits % 0x8000_0000, b.bits % 0x8000_0000);
    assert(zero.scaled_magnitude() == 0);
    if m > 0 {
        lemma_magnitudes_grow(zero, a);
    }
    if n > 0 {
        lemma_magnitudes_grow(zero, b);
    }
    if m < n {
        lemma_magnitudes_grow(a, b);
    } else if n < m {
        lemma_magnitudes_grow(b, a);
    }
}

/// Whether every value of a tensor is finite.
pub open spec fn all_finite(values: Seq<Float32>) -> bool {
    forall|i: int| 0 <= i < values.len() ==> (#[trigger] values[i]).finite()
}

/// Whether every value of a tensor is finite.
pub fn are_all_finite(values: &[Float32]) -> (finite: bool)
    ensures
        finite == all_finite(values@),
{
    let mut i: usize = 0;
    while i < values.len()
        invariant
            i <= values.len(),
            forall|j: int| 0 <= j < i ==> (#[trigger] values@[j]).finite(),
        decreases values.len() - i,
    {
        if !values[i].is_finite() {
            return false;
        }
        i = i + 1;
    }
    true
}

/// Copies the values of a tensor.
pub(crate) fn copy_floats(values: &Vec<Float32>) -> (copy: Vec<Float32>)
    ensures
        copy@ == values@,
{
    let mut copy: Vec<Float32> = Vec::new();
    let mut i: usize = 0;
    while i < values.len()
        invariant
            i <= values.len(),
            copy@ == values@.take(i as int),
        decreases values.len() - i,
    {
        copy.push(values[i]);
        i = i + 1;
    }
    assert(values@.take(values@.len() as int) =~= values@);
    copy
}

/// An encoding is made of its sign, eight bits of exponent and 23 bits of fraction.
pub proof fn law_encodings_are_made_of_their_fields(a: Float32)
    ensures
        0 <= a.exponent() <= 255,
        0 <= a.fraction() < 0x80_0000,
        a.bits == (if a.negative() {
            0x8000_0000int
        } else {
            0
        }) + a.exponent() * 0x80_0000 + a.fraction(),
{
}

/// Exactly the encodings below that of infinity, sign aside, are finite, exactly those above it
/// are NaN, and zero has two encodings.
pub proof fn law_encodings_are_classed_by_their_magnitude(a: Float32)
    ensures
        a.finite() <==> a.bits < 0x7f80_0000 || 0x8000_0000 <= a.bits < 0xff80_0000,
        a.nan() <==> 0x7f80_0000 < a.bits < 0x8000_0000 || 0xff80_0000 < a.bits,
        a.zero() <==> a.bits == 0 || a.bits == 0x8000_0000,
{
}

/// Among encodings without a sign a larger one stands for a larger number, a sign turns a number
/// into its opposite, and each exponent doubles the spacing of the numbers.
pub proof fn law_numbers_follow_their_encodings(a: Float32, b: Float32)
    ensures
        a.bits < b.bits < 0x8000_0000 ==> 0 <= a.scaled_value() < b.scaled_value(),
        a.bits < 0x8000_0000 && b.bits == a.bits + 0x8000_0000 ==> b.scaled_value()
            == -a.scaled_value(),
        a.bits < 0x80_0000 ==> a.scaled_value() == a.bits,
        0x80_0000 <= a.bits < 0x7f80_0000 && b.bits == a.bits + 0x80_0000 ==> b.scaled_value() == 2
            * a.scaled_value(),
        0x80_0000 <= a.bits < 0x100_0000 ==> a.scaled_value() == a.bits,
{
    if a.bits < b.bits < 0x8000_0000 {
        lemma_magnitudes_grow(a, b);
    }
    if 0x80_0000 <= a.bits < 0x100_0000 {
        assert(pow2(0) == 1) by {
            vstd::arithmetic::power2::lemma2_to64();
        }
        assert(a.exponent() == 1);
        assert(a.scaled_magnitude() == 0x80_0000 + a.fraction()) by (nonlinear_arith)
            requires
                a.scaled_magnitude() == (0x80_0000 + a.fraction()) * pow2(0),
                pow2(0) == 1,
        ;
    }
    if 0x80_0000 <= a.bits < 0x7f80_0000 && b.bits == a.bits + 0x80_0000 {
        let e = a.exponent();
        assert(b.exponent() == e + 1 && b.fraction() == a.fraction());
        assert(pow2(1) == 2) by {
            vstd::arithmetic::power2::lemma2_to64();
        }
        lemma_pow2_adds(1, (e - 1) as nat);
        assert((0x80_0000 + a.fraction()) * (2 * pow2((e - 1) as nat)) == 2 * ((0x80_0000
            + a.fraction()) * pow2((e - 1) as nat))) by (nonlinear_arith);
    }
}

/// The numbers from zero to one, both included, are the encodings up to that of one and negative
/// zero.
pub proof fn law_the_unit_interval_ends_at_one(a: Float32)
    ensures
        a.in_unit_interval() <==> a.bits <= 0x3f80_0000 || a.bits == 0x8000_0000,
{
    a.lemma_unit_interval_bits();
}

/// A single value that is not finite is enough for a tensor not to be finite.
pub proof fn law_tensors_are_finite_value_by_value(values: Seq<Float32>)
    ensures
        all_finite(values) <==> !exists|i: int|
            0 <= i < values.len() && (#[trigger] values[i]).exponent() == 255,
{
    if exists|i: int| 0 <= i < values.len() && (#[trigger] values[i]).exponent() == 255 {
        let i = choose|i: int| 0 <= i < values.len() && (#[trigger] values[i]).exponent() == 255;
        assert(!values[i].finite());
    }
}

/// An infinity equals itself and nothing else.
pub proof fn law_infinities_equal_only_themselves(a: Float32, b: Float32)
    requires
        a.bits == 0x7f80_0000 || a.bits == 0xff80_0000,
    ensures
        a.eq_spec(&b) <==> a.bits == b.bits,
        b.eq_spec(&a) <==> a.bits == b.bits,
{
}

} // verus!
