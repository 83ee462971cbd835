//! Real coordinates and densities, carried as IEEE-754 binary64 bit patterns.
//!
//! The verifier reasons about integers, so a number travels through this
//! library as the 64 bits of its binary64 encoding: one sign bit, eleven
//! exponent bits, fifty-two fraction bits. Arithmetic on such numbers is the
//! caller's business; what the library itself needs is their order, and that
//! is decided here on the bits alone.
use vstd::prelude::*;
use vstd::arithmetic::power2::{lemma_pow2_pos, lemma_pow2_strictly_increases, lemma_pow2_unfold, pow2};

verus! {

/// The sign bit of a binary64 encoding.
pub const SIGN_BIT: u64 = 0x8000_0000_0000_0000;

/// The encoding of positive infinity: every exponent bit set, no fraction bit.
pub const INFINITY_BITS: u64 = 0x7FF0_0000_0000_0000;

/// The number of encodings that share one exponent: two to the power 52.
pub const FRACTION_SPAN: u64 = 0x0010_0000_0000_0000;

/// The encoding of 0.
pub const ZERO_BITS: u64 = 0x0000_0000_0000_0000;

/// The encoding of 1.
pub const ONE_BITS: u64 = 0x3FF0_0000_0000_0000;

/// The encoding of -1.
pub const MINUS_ONE_BITS: u64 = 0xBFF0_0000_0000_0000;

/// The encoding of 0.25.
pub const QUARTER_BITS: u64 = 0x3FD0_0000_0000_0000;

/// The encoding of the binary64 number nearest to 0.1.
pub const TENTH_BITS: u64 = 0x3FB9_9999_9999_999A;

/// A binary64 number, held as its encoding.
#[derive(Clone, Copy, Debug)]
pub struct Scalar {
    pub bits: u64,
}

impl Scalar {
    /// The encoding with the sign bit cleared.
    pub open spec fn magnitude(self) -> int {
        if self.bits >= SIGN_BIT {
            self.bits - SIGN_BIT
        } else {
            self.bits as int
        }
    }

    /// Whether the sign bit is set.
    pub open spec fn negative(self) -> bool {
        self.bits >= SIGN_BIT
    }

    /// Whether the encoding is one of the not-a-number patterns.
    pub open spec fn nan(self) -> bool {
        self.magnitude() > INFINITY_BITS
    }

    /// Whether the encoding is neither an infinity nor not-a-number.
    pub open spec fn finite(self) -> bool {
        self.magnitude() < INFINITY_BITS
    }

    /// The signed magnitude. Among encodings other than not-a-number it grows
    /// exactly as the encoded number does; both zeros have rank 0.
    pub open spec fn rank(self) -> int {
        if self.negative() {
            -self.magnitude()
        } else {
            self.magnitude()
        }
    }

    /// Strictly less, as binary64 comparison defines it: false as soon as one
    /// side is not-a-number.
    pub open spec fn lt(self, other: Scalar) -> bool {
        !self.nan() && !other.nan() && self.rank() < other.rank()
    }

    /// Less or equal, as binary64 comparison defines it: false as soon as one
    /// side is not-a-number.
    pub open spec fn le(self, other: Scalar) -> bool {
        !self.nan() && !other.nan() && self.rank() <= other.rank()
    }

    /// The absolute value of a finite encoding, scaled by two to the power
    /// 1074 so that it is an integer: the fraction itself for a subnormal,
    /// the fraction with its leading one, shifted by the exponent, otherwise.
    pub open spec fn scaled_magnitude(self) -> int {
        let exponent = self.magnitude() / (FRACTION_SPAN as int);
        let fraction = self.magnitude() % (FRACTION_SPAN as int);
        if exponent == 0 {
            fraction
        } else {
            (FRACTION_SPAN + fraction) * pow2((exponent - 1) as nat)
        }
    }

    /// The number that a finite encoding stands for, times two to the power
    /// 1074.
    pub open spec fn scaled_value(self) -> int {
        if self.negative() {
            -self.scaled_magnitude()
        } else {
            self.scaled_magnitude()
        }
    }

    /// Wraps an encoding.
    pub fn from_bits(bits: u64) -> (r: Scalar)
        ensures
            r.bits == bits,
    {
        Scalar { bits }
    }

    /// The encoding.
    pub fn to_bits(&self) -> (r: u64)
        ensures
            r == self.bits,
    {
        self.bits
    }

    fn magnitude_bits(&self) -> (r: u64)
        ensures
            r == self.magnitude(),
    {
        if self.bits >= SIGN_BIT {
            self.bits - SIGN_BIT
        } else {
            self.bits
        }
    }

    /// Whether this is not-a-number.
    pub fn is_nan(&self) -> (r: bool)
        ensures
            r == self.nan(),
    {
        self.magnitude_bits() > INFINITY_BITS
    }

    /// Whether this is neither an infinity nor not-a-number.
    pub fn is_finite(&self) -> (r: bool)
        ensures
            r == self.finite(),
    {
        self.magnitude_bits() < INFINITY_BITS
    }

    /// Whether `self < other` in binary64 comparison.
    pub fn less_than(&self, other: &Scalar) -> (r: bool)
        ensures
            r == self.lt(*other),
    {
        if self.is_nan() || other.is_nan() {
            return false;
        }
        let a: u64 = self.magnitude_bits();
        let b: u64 = other.magnitude_bits();
        if self.bits >= SIGN_BIT {
            if other.bits >= SIGN_BIT {
                b < a
            } else {
                a != 0 || b != 0
            }
        } else {
            other.bits < SIGN_BIT && a < b
        }
    }

    /// Whether `self <= other` in binary64 comparison.
    pub fn less_or_equal(&self, other: &Scalar) -> (r: bool)
        ensures
            r == self.le(*other),
    {
        if self.is_nan() || other.is_nan() {
            return false;
        }
        let a: u64 = self.magnitude_bits();
        let b: u64 = other.magnitude_bits();
        if self.bits >= SIGN_BIT {
            other.bits < SIGN_BIT || b <= a
        } else {
            if other.bits >= SIGN_BIT {
                a == 0 && b == 0
            } else {
                a <= b
            }
        }
    }
}

/// Among finite encodings with the sign bit cleared, a larger encoding stands
/// for a larger number.
proof fn lemma_scaled_magnitude_increases(a: Scalar, b: Scalar)
    requires
        a.finite(),
        b.finite(),
        a.magnitude() < b.magnitude(),
    ensures
        0 <= a.scaled_magnitude() < b.scaled_magnitude(),
{
    let span = FRACTION_SPAN as int;
    let ea = a.magnitude() / span;
    let fa = a.magnitude() % span;
    let eb = b.magnitude() / span;
    let fb = b.magnitude() % span;
    assert(0 <= a.magnitude() && 0 <= fa < span && 0 <= fb < span);
    assert(a.magnitude() == span * ea + fa && b.magnitude() == span * eb + fb);
    assert(0 <= ea <= eb) by (nonlinear_arith)
        requires
            0 <= a.magnitude() < b.magnitude(),
            a.magnitude() == span * ea + fa,
            b.magnitude() == span * eb + fb,
            0 <= fa < span,
            0 <= fb < span,
            span > 0,
    ;
    if eb == 0 {
        assert(fa < fb);
    } else {
        let pb = pow2((eb - 1) as nat) as int;
        lemma_pow2_pos((eb - 1) as nat);
        assert(span * pb <= (span + fb) * pb) by (nonlinear_arith)
            requires
                0 <= fb,
                pb > 0,
        ;
        assert(span <= span * pb) by (nonlinear_arith)
            requires
                pb >= 1,
                span > 0,
        ;
        if ea == 0 {
            assert(a.scaled_magnitude() == fa);
        } else {
            let pa = pow2((ea - 1) as nat) as int;
            lemma_pow2_pos((ea - 1) as nat);
            assert(0 <= (span + fa) * pa) by (nonlinear_arith)
                requires
                    0 <= fa,
                    span > 0,
                    pa > 0,
            ;
            if ea == eb {
                assert(fa < fb);
                assert((span + fa) * pa < (span + fb) * pa) by (nonlinear_arith)
                    requires
                        fa < fb,
                        pa > 0,
                ;
            } else {
                // One exponent step doubles, which outweighs any fraction.
                lemma_pow2_unfold(ea as nat);
                if ea < eb - 1 {
                    lemma_pow2_strictly_increases(ea as nat, (eb - 1) as nat);
                }
                assert(pow2(ea as nat) <= pb);
                assert((span + fa) * pa < span * pb) by (nonlinear_arith)
                    requires
                        0 <= fa < span,
                        pa > 0,
                        2 * pa <= pb,
                ;
            }
        }
    }
}

/// The order that [`Scalar::lt`] and [`Scalar::le`] decide on the bits is the
/// order of the numbers that finite encodings stand for.
pub proof fn lemma_order_is_numeric(a: Scalar, b: Scalar)
    requires
        a.finite(),
        b.finite(),
    ensures
        a.lt(b) <==> a.scaled_value() < b.scaled_value(),
        a.le(b) <==> a.scaled_value() <= b.scaled_value(),
{
    if a.magnitude() < b.magnitude() {
        lemma_scaled_magnitude_increases(a, b);
    } else if b.magnitude() < a.magnitude() {
        lemma_scaled_magnitude_increases(b, a);
    }
    let zero = Scalar { bits: 0 };
    assert(zero.scaled_magnitude() == 0);
    if 0 < a.magnitude() {
        lemma_scaled_magnitude_increases(zero, a);
    } else {
        assert(a.scaled_magnitude() == 0);
    }
    if 0 < b.magnitude() {
        lemma_scaled_magnitude_increases(zero, b);
    } else {
        assert(b.scaled_magnitude() == 0);
    }
}

/// Binary64 comparison is a strict order on the encodings other than
/// not-a-number, and not-a-number compares with nothing.
pub proof fn lemma_order_is_strict(a: Scalar, b: Scalar, c: Scalar)
    ensures
        !a.lt(a),
        a.lt(b) && b.lt(c) ==> a.lt(c),
        a.le(b) && b.lt(c) ==> a.lt(c),
        a.lt(b) ==> a.le(b) && !b.le(a),
        a.nan() ==> !a.lt(b) && !b.lt(a) && !a.le(b) && !b.le(a),
        !a.nan() && !b.nan() ==> (a.lt(b) || b.le(a)),
{
}

} // verus!
