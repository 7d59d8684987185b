//! Binary floating-point numbers held as their IEEE 754 bit patterns, and the
//! exact widening of a single-precision number to double precision.
//!
//! A finite number is `significand * 2^exponent`, negated when the sign is
//! set; widening keeps the sign and that value.

use vstd::arithmetic::power2::{
    lemma2_to64, lemma_pow2_adds, lemma_pow2_pos, lemma_pow2_strictly_increases, lemma_pow2_unfold,
    pow2,
};
use vstd::prelude::*;

verus! {

/// Two to the 23rd: the implicit leading bit of a single-precision significand.
pub const SINGLE_HIDDEN_BIT: u32 = 0x80_0000;

/// Two to the 31st: the weight of the sign in a single-precision pattern.
pub const SINGLE_SIGN_WEIGHT: u32 = 0x8000_0000;

/// Two to the 22nd: the quiet bit in the fraction of a single-precision NaN.
pub const SINGLE_QUIET_BIT: u32 = 0x40_0000;

/// Two to the 52nd: the implicit leading bit of a double-precision significand.
pub const DOUBLE_HIDDEN_BIT: u64 = 0x10_0000_0000_0000;

/// Two to the 63rd: the weight of the sign in a double-precision pattern.
pub const DOUBLE_SIGN_WEIGHT: u64 = 0x8000_0000_0000_0000;

/// Two to the 29th: how much wider a double-precision fraction is.
pub const FRACTION_WIDENING: u64 = 0x2000_0000;

/// A single-precision number, as its 32-bit pattern.
#[derive(Clone, Copy, Debug, PartialEq, Eq, Structural)]
pub struct Single {
    pub bits: u32,
}

/// A double-precision number, as its 64-bit pattern.
#[derive(Clone, Copy, Debug, PartialEq, Eq, Structural)]
pub struct Double {
    pub bits: u64,
}

impl Single {
    /// Whether the sign is set.
    pub open spec fn negative(self) -> bool {
        self.bits >= SINGLE_SIGN_WEIGHT
    }

    /// The eight-bit exponent field.
    pub open spec fn exponent_field(self) -> nat {
        ((self.bits as nat) / (SINGLE_HIDDEN_BIT as nat)) % 256
    }

    /// The 23-bit fraction field.
    pub open spec fn fraction(self) -> nat {
        (self.bits as nat) % (SINGLE_HIDDEN_BIT as nat)
    }

    /// Zero, subnormal or normal.
    pub open spec fn is_finite(self) -> bool {
        self.exponent_field() < 255
    }

    /// Positive or negative infinity.
    pub open spec fn is_infinite(self) -> bool {
        self.exponent_field() == 255 && self.fraction() == 0
    }

    /// Not a number.
    pub open spec fn is_nan(self) -> bool {
        self.exponent_field() == 255 && self.fraction() != 0
    }

    /// The integer significand of a finite number.
    pub open spec fn significand(self) -> nat {
        if self.exponent_field() == 0 {
            self.fraction()
        } else {
            self.fraction() + SINGLE_HIDDEN_BIT as nat
        }
    }

    /// The power of two that scales the significand of a finite number.
    pub open spec fn exponent(self) -> int {
        if self.exponent_field() == 0 {
            -149
        } else {
            self.exponent_field() - 150
        }
    }

    /// The fraction of a NaN once its quiet bit is set.
    pub open spec fn quieted_fraction(self) -> nat {
        if self.fraction() < SINGLE_QUIET_BIT as nat {
            self.fraction() + SINGLE_QUIET_BIT as nat
        } else {
            self.fraction()
        }
    }

    /// Wraps a bit pattern.
    pub fn from_bits(bits: u32) -> (number: Single)
        ensures
            number.bits == bits,
    {
        Single { bits }
    }

    /// The bit pattern.
    pub fn to_bits(self) -> (bits: u32)
        ensures
            bits == self.bits,
    {
        self.bits
    }
}

impl Double {
    /// Whether the sign is set.
    pub open spec fn negative(self) -> bool {
        self.bits >= DOUBLE_SIGN_WEIGHT
    }

    /// The eleven-bit exponent field.
    pub open spec fn exponent_field(self) -> nat {
        ((self.bits as nat) / (DOUBLE_HIDDEN_BIT as nat)) % 2048
    }

    /// The 52-bit fraction field.
    pub open spec fn fraction(self) -> nat {
        (self.bits as nat) % (DOUBLE_HIDDEN_BIT as nat)
    }

    /// Zero, subnormal or normal.
    pub open spec fn is_finite(self) -> bool {
        self.exponent_field() < 2047
    }

    /// Positive or negative infinity.
    pub open spec fn is_infinite(self) -> bool {
        self.exponent_field() == 2047 && self.fraction() == 0
    }

    /// Not a number.
    pub open spec fn is_nan(self) -> bool {
        self.exponent_field() == 2047 && self.fraction() != 0
    }

    /// The integer significand of a finite number.
    pub open spec fn significand(self) -> nat {
        if self.exponent_field() == 0 {
            self.fraction()
        } else {
            self.fraction() + DOUBLE_HIDDEN_BIT as nat
        }
    }

    /// The power of two that scales the significand of a finite number.
    pub open spec fn exponent(self) -> int {
        if self.exponent_field() == 0 {
            -1074
        } else {
            self.exponent_field() - 1075
        }
    }

    /// Wraps a bit pattern.
    pub fn from_bits(bits: u64) -> (number: Double)
        ensures
            number.bits == bits,
    {
        Double { bits }
    }

    /// The bit pattern.
    pub fn to_bits(self) -> (bits: u64)
        ensures
            bits == self.bits,
    {
        self.bits
    }
}

/// What it means for `wide` to be `narrow` widened to double precision: the
/// sign is kept; a finite number keeps its value exactly; an infinity stays
/// an infinity; a NaN becomes a quiet NaN that carries the payload in the
/// top bits of its fraction.
pub open spec fn widens_to(narrow: Single, wide: Double) -> bool {
    &&& wide.negative() == narrow.negative()
    &&& narrow.is_finite() ==> {
        &&& wide.is_finite()
        &&& wide.exponent() <= narrow.exponent()
        &&& wide.significand() == narrow.significand() * pow2(
            (narrow.exponent() - wide.exponent()) as nat,
        )
    }
    &&& narrow.is_infinite() ==> wide.is_infinite()
    &&& narrow.is_nan() ==> {
        &&& wide.is_nan()
        &&& wide.fraction() == narrow.quieted_fraction() * FRACTION_WIDENING as nat
    }
}

/// The double-precision number that a single-precision number widens to.
pub open spec fn widened(narrow: Single) -> Double {
    choose|wide: Double| widens_to(narrow, wide)
}

/// Assembles a double-precision pattern from its three fields.
fn compose_double(sign: u64, exponent_field: u64, fraction: u64) -> (number: Double)
    requires
        sign <= 1,
        exponent_field < 2048,
        fraction < DOUBLE_HIDDEN_BIT,
    ensures
        number.negative() == (sign == 1),
        number.exponent_field() == exponent_field,
        number.fraction() == fraction,
{
    Double { bits: sign * DOUBLE_SIGN_WEIGHT + exponent_field * DOUBLE_HIDDEN_BIT + fraction }
}

impl Single {
    /// Widens to double precision without changing the value.
    pub fn widen(self) -> (wide: Double)
        ensures
            widens_to(self, wide),
            wide == widened(self),
    {
        let wide = self.widen_fields();
        proof {
            lemma_widening_unique(self, wide, widened(self));
        }
        wide
    }

    /// Widens field by field: the exponent is rebiased, the fraction moved
    /// up, and a subnormal is normalised first.
    fn widen_fields(self) -> (wide: Double)
        ensures
            widens_to(self, wide),
    {
        let sign: u64 = (self.bits / SINGLE_SIGN_WEIGHT) as u64;
        let field: u32 = (self.bits / SINGLE_HIDDEN_BIT) % 256;
        let fraction: u32 = self.bits % SINGLE_HIDDEN_BIT;
        proof {
            lemma2_to64();
        }
        if field == 255 {
            if fraction == 0 {
                compose_double(sign, 2047, 0)
            } else if fraction < SINGLE_QUIET_BIT {
                let quieted: u32 = fraction + SINGLE_QUIET_BIT;
                compose_double(sign, 2047, quieted as u64 * FRACTION_WIDENING)
            } else {
                compose_double(sign, 2047, fraction as u64 * FRACTION_WIDENING)
            }
        } else if field != 0 {
            let wide = compose_double(
                sign,
                field as u64 + 896,
                fraction as u64 * FRACTION_WIDENING,
            );
            assert(wide.significand() == self.significand() * pow2(29)) by {
                assert((fraction + SINGLE_HIDDEN_BIT) * 0x2000_0000 == fraction * 0x2000_0000
                    + 0x10_0000_0000_0000) by (nonlinear_arith);
            }
            wide
        } else if fraction == 0 {
            let wide = compose_double(sign, 0, 0);
            assert(0 * pow2((self.exponent() - wide.exponent()) as nat) == 0) by (nonlinear_arith);
            wide
        } else {
            let mut scaled: u32 = fraction;
            let mut shift: u32 = 0;
            while scaled < SINGLE_HIDDEN_BIT
                invariant
                    0 < fraction < SINGLE_HIDDEN_BIT,
                    scaled == fraction * pow2(shift as nat),
                    pow2(shift as nat) <= scaled,
                    0 < scaled,
                    scaled < 2 * SINGLE_HIDDEN_BIT,
                    shift <= 23,
                decreases 2 * SINGLE_HIDDEN_BIT - scaled,
            {
                proof {
                    lemma_pow2_unfold((shift + 1) as nat);
                    assert(fraction * (2 * pow2(shift as nat)) == 2 * (fraction * pow2(
                        shift as nat,
                    ))) by (nonlinear_arith);
                    if shift == 23 {
                        lemma2_to64();
                    }
                }
                scaled = scaled * 2;
                shift = shift + 1;
            }
            let wide = compose_double(
                sign,
                (897 - shift) as u64,
                (scaled - SINGLE_HIDDEN_BIT) as u64 * FRACTION_WIDENING,
            );
            proof {
                lemma_pow2_adds(shift as nat, 29);
                assert(wide.significand() == scaled * 0x2000_0000);
                assert(fraction * (pow2(shift as nat) * pow2(29)) == (fraction * pow2(
                    shift as nat,
                )) * pow2(29)) by (nonlinear_arith);
            }
            wide
        }
    }
}

impl Double {
    /// The value of a finite number in units of the smallest subnormal,
    /// ignoring the sign.
    pub open spec fn magnitude(self) -> nat {
        self.significand() * pow2((self.exponent() + 1074) as nat)
    }
}

/// A pattern is the sum of its three fields, each at its weight.
proof fn lemma_double_fields(number: Double)
    ensures
        number.bits == (if number.negative() {
            DOUBLE_SIGN_WEIGHT as nat
        } else {
            0
        }) + number.exponent_field() * DOUBLE_HIDDEN_BIT as nat + number.fraction(),
        number.fraction() < DOUBLE_HIDDEN_BIT,
        number.exponent_field() < 2048,
{
}

/// The magnitude of a finite number lies in the band of its exponent field.
proof fn lemma_magnitude_band(number: Double)
    requires
        number.is_finite(),
    ensures
        number.exponent_field() == 0 ==> number.magnitude() < DOUBLE_HIDDEN_BIT,
        number.exponent_field() != 0 ==> {
            &&& DOUBLE_HIDDEN_BIT * pow2((number.exponent_field() - 1) as nat)
                <= number.magnitude()
            &&& number.magnitude() < DOUBLE_HIDDEN_BIT * pow2(number.exponent_field())
        },
{
    let field = number.exponent_field();
    let fraction = number.fraction();
    lemma2_to64();
    if field == 0 {
        assert(fraction * 1 == fraction) by (nonlinear_arith);
    } else {
        let scale = pow2((field - 1) as nat);
        lemma_pow2_unfold(field);
        lemma_pow2_pos((field - 1) as nat);
        assert(number.magnitude() == (fraction + DOUBLE_HIDDEN_BIT) * scale);
        assert(DOUBLE_HIDDEN_BIT * scale <= (fraction + DOUBLE_HIDDEN_BIT) * scale
            < DOUBLE_HIDDEN_BIT * (2 * scale)) by (nonlinear_arith)
            requires
                0 <= fraction < DOUBLE_HIDDEN_BIT,
                0 < scale,
        ;
    }
}

/// A finite double-precision number is determined by its sign and its
/// magnitude: no value has two patterns.
pub proof fn lemma_double_determined_by_value(a: Double, b: Double)
    requires
        a.is_finite(),
        b.is_finite(),
        a.negative() == b.negative(),
        a.magnitude() == b.magnitude(),
    ensures
        a == b,
{
    lemma_double_fields(a);
    lemma_double_fields(b);
    lemma_magnitude_band(a);
    lemma_magnitude_band(b);
    let low = if a.exponent_field() <= b.exponent_field() {
        a
    } else {
        b
    };
    let high = if a.exponent_field() <= b.exponent_field() {
        b
    } else {
        a
    };
    if low.exponent_field() < high.exponent_field() {
        let reach = pow2(low.exponent_field());
        let floor = pow2((high.exponent_field() - 1) as nat);
        lemma2_to64();
        assert(reach <= floor) by {
            if low.exponent_field() < high.exponent_field() - 1 {
                lemma_pow2_strictly_increases(
                    low.exponent_field(),
                    (high.exponent_field() - 1) as nat,
                );
            }
        }
        assert(DOUBLE_HIDDEN_BIT * reach <= DOUBLE_HIDDEN_BIT * floor) by (nonlinear_arith)
            requires
                reach <= floor,
        ;
        assert(low.magnitude() < high.magnitude());
    } else {
        let scale = pow2((a.exponent() + 1074) as nat);
        lemma_pow2_pos((a.exponent() + 1074) as nat);
        assert(a.significand() == b.significand()) by (nonlinear_arith)
            requires
                a.significand() * scale == b.significand() * scale,
                0 < scale,
        ;
    }
}

/// Widening is a function: the relation `widens_to` admits one result for
/// each single-precision number.
pub proof fn lemma_widening_unique(narrow: Single, first: Double, second: Double)
    requires
        widens_to(narrow, first),
        widens_to(narrow, second),
    ensures
        first == second,
{
    lemma_double_fields(first);
    lemma_double_fields(second);
    if narrow.is_finite() {
        lemma_magnitude_carried(narrow, first);
        lemma_magnitude_carried(narrow, second);
        lemma_double_determined_by_value(first, second);
    }
}

/// The magnitude of a widened finite number is that of the narrow one, in
/// units of the smallest double-precision subnormal.
proof fn lemma_magnitude_carried(narrow: Single, wide: Double)
    requires
        narrow.is_finite(),
        widens_to(narrow, wide),
    ensures
        wide.magnitude() == narrow.significand() * pow2((narrow.exponent() + 1074) as nat),
{
    let gap = (narrow.exponent() - wide.exponent()) as nat;
    let base = (wide.exponent() + 1074) as nat;
    lemma_pow2_adds(gap, base);
    assert((narrow.significand() * pow2(gap)) * pow2(base) == narrow.significand() * (pow2(gap)
        * pow2(base))) by (nonlinear_arith);
}

/// The pattern with the given sign, exponent field and fraction.
pub open spec fn double_of(negative: bool, exponent_field: nat, fraction: nat) -> Double {
    Double {
        bits: ((if negative {
            DOUBLE_SIGN_WEIGHT as nat
        } else {
            0
        }) + exponent_field * DOUBLE_HIDDEN_BIT as nat + fraction) as u64,
    }
}

/// How often a nonzero fraction is doubled until its leading bit is the
/// implicit bit of a normal significand.
pub open spec fn normalising_shift(fraction: nat) -> nat
    decreases 2 * SINGLE_HIDDEN_BIT as nat - fraction,
{
    if fraction == 0 || fraction >= SINGLE_HIDDEN_BIT as nat {
        0
    } else {
        1 + normalising_shift(2 * fraction)
    }
}

/// The fields of a pattern that is put together from fields are those
/// fields.
proof fn lemma_double_of(negative: bool, exponent_field: nat, fraction: nat)
    requires
        exponent_field < 2048,
        fraction < DOUBLE_HIDDEN_BIT,
    ensures
        double_of(negative, exponent_field, fraction).negative() == negative,
        double_of(negative, exponent_field, fraction).exponent_field() == exponent_field,
        double_of(negative, exponent_field, fraction).fraction() == fraction,
{
}

/// Doubling a nonzero fraction as often as its normalising shift says
/// brings it into the range of a normal significand.
proof fn lemma_normalising_shift(fraction: nat)
    requires
        0 < fraction < 2 * SINGLE_HIDDEN_BIT,
    ensures
        normalising_shift(fraction) <= 23,
        fraction < SINGLE_HIDDEN_BIT ==> SINGLE_HIDDEN_BIT <= fraction * pow2(
            normalising_shift(fraction),
        ) < 2 * SINGLE_HIDDEN_BIT,
    decreases 2 * SINGLE_HIDDEN_BIT as nat - fraction,
{
    lemma2_to64();
    let shift = normalising_shift(fraction);
    if fraction < SINGLE_HIDDEN_BIT as nat {
        let rest = normalising_shift(2 * fraction);
        lemma_normalising_shift(2 * fraction);
        lemma_pow2_unfold(shift);
        assert((2 * fraction) * pow2(rest) == fraction * (2 * pow2(rest))) by (nonlinear_arith);
        if 2 * fraction >= SINGLE_HIDDEN_BIT as nat {
            assert(fraction * 2 == 2 * fraction);
        }
        if shift > 23 {
            if shift > 24 {
                lemma_pow2_strictly_increases(24, shift);
            }
            assert(fraction * pow2(shift) >= pow2(shift)) by (nonlinear_arith)
                requires
                    fraction >= 1,
            ;
        }
    }
}

/// Every single-precision number widens to some double-precision number,
/// so `widened` is the widening of its argument.
pub proof fn lemma_widened_widens(narrow: Single)
    ensures
        widens_to(narrow, widened(narrow)),
{
    let negative = narrow.negative();
    let field = narrow.exponent_field();
    let fraction = narrow.fraction();
    lemma2_to64();
    let wide = if field == 255 {
        if fraction == 0 {
            double_of(negative, 2047, 0)
        } else {
            double_of(negative, 2047, narrow.quieted_fraction() * FRACTION_WIDENING as nat)
        }
    } else if field != 0 {
        double_of(negative, field + 896, fraction * FRACTION_WIDENING as nat)
    } else if fraction == 0 {
        double_of(negative, 0, 0)
    } else {
        let shift = normalising_shift(fraction);
        double_of(
            negative,
            (897 - shift) as nat,
            ((fraction * pow2(shift) - SINGLE_HIDDEN_BIT) * FRACTION_WIDENING) as nat,
        )
    };
    if field == 255 {
        if fraction == 0 {
            lemma_double_of(negative, 2047, 0);
        } else {
            lemma_double_of(
                negative,
                2047,
                narrow.quieted_fraction() * FRACTION_WIDENING as nat,
            );
        }
    } else if field != 0 {
        lemma_double_of(negative, field + 896, fraction * FRACTION_WIDENING as nat);
        assert((fraction + SINGLE_HIDDEN_BIT) * 0x2000_0000 == fraction * 0x2000_0000
            + 0x10_0000_0000_0000) by (nonlinear_arith);
    } else if fraction == 0 {
        lemma_double_of(negative, 0, 0);
        assert(0 * pow2((narrow.exponent() - wide.exponent()) as nat) == 0) by (nonlinear_arith);
    } else {
        let shift = normalising_shift(fraction);
        let scaled = fraction * pow2(shift);
        lemma_normalising_shift(fraction);
        lemma_double_of(
            negative,
            (897 - shift) as nat,
            ((scaled - SINGLE_HIDDEN_BIT) * FRACTION_WIDENING) as nat,
        );
        lemma_pow2_adds(shift, 29);
        assert(wide.significand() == scaled * 0x2000_0000);
        assert(fraction * (pow2(shift) * pow2(29)) == (fraction * pow2(shift)) * pow2(29))
            by (nonlinear_arith);
    }
    assert(widens_to(narrow, wide));
}

} // verus!
