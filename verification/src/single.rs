//! Numbers in IEEE single precision, as bit patterns.
//!
//! Temperatures reach this library and leave it as singles. Every operation here works on
//! the bits with integers alone, and its contract says which exact quantity the result is
//! nearest to.
use vstd::arithmetic::div_mod::lemma_fundamental_div_mod;
use vstd::arithmetic::div_mod::lemma_fundamental_div_mod_converse;
use vstd::arithmetic::power2::lemma2_to64;
use vstd::arithmetic::power2::lemma2_to64_rest;
use vstd::arithmetic::power2::lemma_pow2_adds;
use vstd::arithmetic::power2::lemma_pow2_pos;
use vstd::arithmetic::power2::pow2;
use vstd::prelude::*;

use crate::rounding::power_of_two;
use crate::rounding::round_steps;
use crate::rounding::INFINITY_MAGNITUDE;

verus! {

/// A single-precision number by its bit pattern; `==` compares patterns.
#[derive(Debug, Clone, Copy, PartialEq, Eq, Structural)]
pub struct Single {
    pub bits: u32,
}

impl Single {
    /// The sign bit is set.
    pub open spec fn negative(self) -> bool {
        self.bits >= 0x8000_0000
    }

    /// Exponent and fraction, without the sign.
    pub open spec fn magnitude(self) -> nat {
        (self.bits % 0x8000_0000) as nat
    }

    pub open spec fn is_nan(self) -> bool {
        self.magnitude() > INFINITY_MAGNITUDE
    }

    pub open spec fn is_infinite(self) -> bool {
        self.magnitude() == INFINITY_MAGNITUDE
    }

    pub open spec fn is_finite(self) -> bool {
        self.magnitude() < INFINITY_MAGNITUDE
    }

    pub open spec fn is_zero(self) -> bool {
        self.magnitude() == 0
    }

    /// The digits of the number, the leading one included.
    pub open spec fn significand(self) -> nat {
        if self.magnitude() < 0x80_0000 {
            self.magnitude()
        } else {
            0x80_0000 + self.magnitude() % 0x80_0000
        }
    }

    /// The last digit is worth `2^shift` units of 2^-149.
    pub open spec fn shift(self) -> nat {
        if self.magnitude() < 0x80_0000 {
            0
        } else {
            (self.magnitude() / 0x80_0000 - 1) as nat
        }
    }

    /// Absolute value of a finite number, in units of 2^-149.
    pub open spec fn units(self) -> nat {
        self.significand() * pow2(self.shift())
    }

    /// Value of a finite number, in units of 2^-149.
    pub open spec fn signed_units(self) -> int {
        if self.negative() {
            -(self.units() as int)
        } else {
            self.units() as int
        }
    }

    /// Position on the number line of a number that is not a NaN: equal for the two
    /// zeros, otherwise in the order of the values.
    pub open spec fn rank(self) -> int {
        if self.negative() {
            -(self.magnitude() as int)
        } else {
            self.magnitude() as int
        }
    }

    /// `self <= other`, false where either is a NaN.
    pub open spec fn le(self, other: Single) -> bool {
        !self.is_nan() && !other.is_nan() && self.rank() <= other.rank()
    }

    /// `self < other`, false where either is a NaN.
    pub open spec fn lt(self, other: Single) -> bool {
        !self.is_nan() && !other.is_nan() && self.rank() < other.rank()
    }

    /// The number nearest to the product.
    pub open spec fn product(self, other: Single) -> Single {
        let neg = self.negative() != other.negative();
        if self.is_nan() || other.is_nan() {
            nan()
        } else if self.is_infinite() || other.is_infinite() {
            if self.is_zero() || other.is_zero() {
                nan()
            } else {
                with_sign(neg, INFINITY_MAGNITUDE as nat)
            }
        } else {
            nearest(neg, self.units() * other.units(), pow2(149))
        }
    }

    /// The number nearest to the quotient.
    pub open spec fn quotient(self, other: Single) -> Single {
        let neg = self.negative() != other.negative();
        if self.is_nan() || other.is_nan() {
            nan()
        } else if self.is_infinite() {
            if other.is_infinite() {
                nan()
            } else {
                with_sign(neg, INFINITY_MAGNITUDE as nat)
            }
        } else if other.is_infinite() {
            with_sign(neg, 0)
        } else if other.is_zero() {
            if self.is_zero() {
                nan()
            } else {
                with_sign(neg, INFINITY_MAGNITUDE as nat)
            }
        } else {
            nearest(neg, self.units() * pow2(149), other.units())
        }
    }

    /// The number nearest to the sum; an exact zero is negative only if both terms are.
    pub open spec fn sum(self, other: Single) -> Single {
        if self.is_nan() || other.is_nan() {
            nan()
        } else if self.is_infinite() {
            if other.is_infinite() && self.negative() != other.negative() {
                nan()
            } else {
                self
            }
        } else if other.is_infinite() {
            other
        } else {
            let total = self.signed_units() + other.signed_units();
            if total > 0 {
                nearest(false, total as nat, 1)
            } else if total < 0 {
                nearest(true, (-total) as nat, 1)
            } else {
                with_sign(self.negative() && other.negative(), 0)
            }
        }
    }

    /// The number with the other sign.
    pub open spec fn opposite(self) -> Single {
        with_sign(!self.negative(), self.magnitude())
    }

    /// The number nearest to the difference.
    pub open spec fn difference(self, other: Single) -> Single {
        self.sum(other.opposite())
    }

    /// The number without its sign.
    pub open spec fn absolute(self) -> Single {
        with_sign(false, self.magnitude())
    }

    /// The integer nearest to the absolute value of a finite number, halves going up.
    pub open spec fn nearest_whole(self) -> nat {
        (2 * self.units() + pow2(149)) / pow2(150)
    }

    /// The nearest integer, halves going away from zero, as a single.
    pub open spec fn rounded(self) -> Single {
        if self.is_finite() {
            nearest(self.negative(), self.nearest_whole() * pow2(149), 1)
        } else {
            self
        }
    }

    /// The nearest integer between zero and `max`; zero for a NaN.
    pub open spec fn saturated(self, max: nat) -> nat {
        if self.is_nan() || self.negative() {
            0
        } else if self.is_infinite() || self.nearest_whole() > max {
            max
        } else {
            self.nearest_whole()
        }
    }

    /// The smaller of two numbers; the other one where one is a NaN.
    pub open spec fn smaller(self, other: Single) -> Single {
        if other.is_nan() || self.le(other) {
            self
        } else {
            other
        }
    }

    /// The larger of two numbers; the other one where one is a NaN.
    pub open spec fn larger(self, other: Single) -> Single {
        if other.is_nan() || other.le(self) {
            self
        } else {
            other
        }
    }

    /// The number kept between two bounds.
    pub open spec fn clamped(self, low: Single, high: Single) -> Single {
        if self.lt(low) {
            low
        } else if high.lt(self) {
            high
        } else {
            self
        }
    }
}

/// The number with this sign, exponent and fraction.
pub open spec fn with_sign(neg: bool, magnitude: nat) -> Single {
    Single {
        bits: (magnitude + if neg {
            0x8000_0000nat
        } else {
            0
        }) as u32,
    }
}

/// The single nearest to plus or minus `num / den` units of 2^-149.
pub open spec fn nearest(neg: bool, num: nat, den: nat) -> Single {
    with_sign(neg, crate::rounding::round_magnitude(num, den))
}

/// The pattern that stands for every NaN that an operation gives.
pub open spec fn nan() -> Single {
    Single { bits: 0x7fc0_0000 }
}

/// The single nearest to the integer `n`.
pub open spec fn whole(n: nat) -> Single {
    nearest(false, n * pow2(149), 1)
}

/// The digits of a double by its bit pattern.
pub open spec fn double_significand(bits: u64) -> nat {
    let magnitude = (bits % 0x8000_0000_0000_0000) as nat;
    if magnitude < 0x10_0000_0000_0000 {
        magnitude
    } else {
        0x10_0000_0000_0000 + magnitude % 0x10_0000_0000_0000
    }
}

/// The last digit of a double is worth `2^(shift - 1074)`.
pub open spec fn double_shift(bits: u64) -> nat {
    let magnitude = (bits % 0x8000_0000_0000_0000) as nat;
    if magnitude < 0x10_0000_0000_0000 {
        0
    } else {
        (magnitude / 0x10_0000_0000_0000 - 1) as nat
    }
}

/// The single nearest to the double with this bit pattern.
pub open spec fn narrowed(bits: u64) -> Single {
    let neg = bits >= 0x8000_0000_0000_0000;
    let magnitude = bits % 0x8000_0000_0000_0000;
    if magnitude > 0x7ff0_0000_0000_0000 {
        nan()
    } else if magnitude == 0x7ff0_0000_0000_0000 {
        with_sign(neg, INFINITY_MAGNITUDE as nat)
    } else {
        nearest(neg, double_significand(bits) * pow2(double_shift(bits)), pow2(925))
    }
}

proof fn lemma_shift_bound(x: Single)
    requires
        x.is_finite(),
    ensures
        x.shift() <= 253,
        x.significand() < 0x100_0000,
        x.shift() > 0 ==> x.significand() >= 0x80_0000,
        x.is_zero() <==> x.significand() == 0,
        x.is_zero() <==> x.units() == 0,
{
    lemma_pow2_pos(x.shift());
    let (m, p) = (x.significand(), pow2(x.shift()));
    assert(m * p == 0 <==> m == 0) by (nonlinear_arith)
        requires
            p > 0,
    ;
}

/// A finite number is the one nearest to its own value.
pub proof fn lemma_exact(x: Single)
    requires
        x.is_finite(),
    ensures
        nearest(x.negative(), x.units(), 1) == x,
{
    lemma_shift_bound(x);
    crate::rounding::lemma_exact_steps(x.significand(), x.shift());
    assert(x.significand() == 0 || x.shift() == 0 || x.significand() >= 0x80_0000);
}

impl Single {
    /// The number with this bit pattern.
    pub fn from_bits(bits: u32) -> (r: Single)
        ensures
            r.bits == bits,
    {
        Single { bits }
    }

    /// The bit pattern of the number.
    pub fn to_bits(self) -> (bits: u32)
        ensures
            bits == self.bits,
    {
        self.bits
    }

    pub(crate) fn sign(self) -> (neg: bool)
        ensures
            neg == self.negative(),
    {
        self.bits >= 0x8000_0000
    }

    fn unsigned(self) -> (magnitude: u32)
        ensures
            magnitude == self.magnitude(),
            magnitude < 0x8000_0000,
    {
        self.bits % 0x8000_0000
    }

    /// Whether this is not a number.
    pub fn not_a_number(self) -> (r: bool)
        ensures
            r == self.is_nan(),
    {
        self.unsigned() > INFINITY_MAGNITUDE
    }

    /// Whether this is a finite number.
    pub fn finite(self) -> (r: bool)
        ensures
            r == self.is_finite(),
    {
        self.unsigned() < INFINITY_MAGNITUDE
    }

    /// Digits and exponent of a finite number.
    pub(crate) fn parts(self) -> (r: (u32, u32))
        requires
            self.is_finite(),
        ensures
            r.0 == self.significand(),
            r.1 == self.shift(),
            r.0 < 0x100_0000,
            r.1 <= 253,
            r.1 > 0 ==> r.0 >= 0x80_0000,
    {
        let magnitude = self.unsigned();
        if magnitude < 0x80_0000 {
            (magnitude, 0)
        } else {
            (0x80_0000 + magnitude % 0x80_0000, magnitude / 0x80_0000 - 1)
        }
    }

    fn signed(neg: bool, magnitude: u32) -> (r: Single)
        requires
            magnitude < 0x8000_0000,
        ensures
            r == with_sign(neg, magnitude as nat),
    {
        if neg {
            Single { bits: 0x8000_0000 + magnitude }
        } else {
            Single { bits: magnitude }
        }
    }

    /// Product of two numbers.
    pub fn times(self, other: Single) -> (r: Single)
        ensures
            r == self.product(other),
    {
        let neg = self.sign() != other.sign();
        let x = self.unsigned();
        let y = other.unsigned();
        if x > INFINITY_MAGNITUDE || y > INFINITY_MAGNITUDE {
            return Single { bits: 0x7fc0_0000 };
        }
        if x == INFINITY_MAGNITUDE || y == INFINITY_MAGNITUDE {
            if x == 0 || y == 0 {
                return Single { bits: 0x7fc0_0000 };
            }
            return Single::signed(neg, INFINITY_MAGNITUDE);
        }
        let (m, i) = self.parts();
        let (n, j) = other.parts();
        let ghost num = self.units() * other.units();
        let ghost den = pow2(149);
        proof {
            lemma_pow2_pos(149);
            lemma_pow2_adds(i as nat, j as nat);
            assert(m * n < 0x100_0000 * 0x100_0000) by (nonlinear_arith)
                requires
                    0 <= m < 0x100_0000,
                    0 <= n < 0x100_0000,
            ;
            assert(num * pow2(149) == (m * n) * (den * pow2((i + j) as nat))) by (nonlinear_arith)
                requires
                    num == (m * pow2(i as nat)) * (n * pow2(j as nat)),
                    pow2(i as nat) * pow2(j as nat) == pow2((i + j) as nat),
                    den == pow2(149),
            ;
        }
        let digits: u128 = (m as u128) * (n as u128);
        let e: i32 = i as i32 + j as i32 - 149;
        let r = round_steps(
            digits,
            false,
            e,
            Ghost(num),
            Ghost(den),
            Ghost(149),
            Ghost((i + j) as nat),
        );
        Single::signed(neg, r)
    }

    /// Quotient of two numbers.
    pub fn divided_by(self, other: Single) -> (r: Single)
        ensures
            r == self.quotient(other),
    {
        let neg = self.sign() != other.sign();
        let x = self.unsigned();
        let y = other.unsigned();
        if x > INFINITY_MAGNITUDE || y > INFINITY_MAGNITUDE {
            return Single { bits: 0x7fc0_0000 };
        }
        if x == INFINITY_MAGNITUDE {
            if y == INFINITY_MAGNITUDE {
                return Single { bits: 0x7fc0_0000 };
            }
            return Single::signed(neg, INFINITY_MAGNITUDE);
        }
        if y == INFINITY_MAGNITUDE {
            return Single::signed(neg, 0);
        }
        if y == 0 {
            if x == 0 {
                return Single { bits: 0x7fc0_0000 };
            }
            return Single::signed(neg, INFINITY_MAGNITUDE);
        }
        let (m, i) = self.parts();
        let (n, j) = other.parts();
        let wide: u128 = (m as u128) * 0x1_0000_0000_0000_0000;
        let digits: u128 = wide / (n as u128);
        let rest: u128 = wide % (n as u128);
        let e: i32 = i as i32 + 149 - 64 - j as i32;
        let ghost num = self.units() * pow2(149);
        let ghost den = other.units();
        proof {
            lemma_shift_bound(other);
            lemma2_to64();
            lemma_fundamental_div_mod(wide as int, n as int);
            let a = (64 + j) as nat;
            let b = (i + 149) as nat;
            lemma_pow2_adds(64, j as nat);
            lemma_pow2_adds(i as nat, 149);
            lemma_pow2_pos(i as nat);
            lemma_pow2_pos(j as nat);
            lemma_pow2_pos(149);
            let scale = pow2(i as nat) * pow2(149) * pow2(j as nat);
            assert(scale > 0) by (nonlinear_arith)
                requires
                    scale == pow2(i as nat) * pow2(149) * pow2(j as nat),
                    pow2(i as nat) > 0,
                    pow2(149) > 0,
                    pow2(j as nat) > 0,
            ;
            assert(num * pow2(a) == wide * scale) by (nonlinear_arith)
                requires
                    num == (m * pow2(i as nat)) * pow2(149),
                    pow2(a) == 0x1_0000_0000_0000_0000 * pow2(j as nat),
                    wide == m * 0x1_0000_0000_0000_0000,
                    scale == pow2(i as nat) * pow2(149) * pow2(j as nat),
            ;
            assert(den * pow2(b) == n * scale) by (nonlinear_arith)
                requires
                    den == n * pow2(j as nat),
                    pow2(b) == pow2(i as nat) * pow2(149),
                    scale == pow2(i as nat) * pow2(149) * pow2(j as nat),
            ;
            assert(digits * (n * scale) + rest * scale == wide * scale) by (nonlinear_arith)
                requires
                    wide == n * digits + rest,
            ;
            assert((digits + 1) * (n * scale) == digits * (n * scale) + n * scale)
                by (nonlinear_arith);
            if rest > 0 {
                assert(0 < rest * scale < n * scale) by (nonlinear_arith)
                    requires
                        0 < rest < n,
                        scale > 0,
                ;
                assert(m >= 1) by (nonlinear_arith)
                    requires
                        wide == m * 0x1_0000_0000_0000_0000,
                        wide > 0,
                ;
                assert(digits >= 0x100_0000) by (nonlinear_arith)
                    requires
                        wide == n * digits + rest,
                        rest < n,
                        n < 0x100_0000,
                        wide >= 0x1_0000_0000_0000_0000,
                ;
                crate::rounding::lemma_bit_len_bounds(digits as nat);
                if crate::rounding::bit_len(digits as nat) < 25 {
                    crate::rounding::lemma_pow2_monotonic(
                        crate::rounding::bit_len(digits as nat),
                        24,
                    );
                }
            } else {
                assert(rest * scale == 0) by (nonlinear_arith)
                    requires
                        rest == 0,
                ;
            }
        }
        let r = round_steps(
            digits,
            rest > 0,
            e,
            Ghost(num),
            Ghost(den),
            Ghost((64 + j) as nat),
            Ghost((i + 149) as nat),
        );
        Single::signed(neg, r)
    }
}

/// A small term next to a far larger one moves the sum by less than one step of 2^10.
proof fn lemma_far_term(m: nat, i: nat, n: nat, j: nat)
    requires
        j + 40 <= i,
        0 < n < 0x100_0000,
        0x80_0000 <= m < 0x100_0000,
    ensures
        0 < n * pow2(j) < pow2((i - 10) as nat),
        (m * 0x400) * pow2((i - 10) as nat) == m * pow2(i),
        (m * 0x400 - 1) * pow2((i - 10) as nat) == m * pow2(i) - pow2((i - 10) as nat),
        (m * 0x400 + 1) * pow2((i - 10) as nat) == m * pow2(i) + pow2((i - 10) as nat),
{
    let step = pow2((i - 10) as nat);
    lemma2_to64();
    lemma_pow2_pos(j);
    lemma_pow2_adds(24, j);
    crate::rounding::lemma_pow2_monotonic(24 + j, (i - 10) as nat);
    assert(0 < n * pow2(j) < 0x100_0000 * pow2(j)) by (nonlinear_arith)
        requires
            0 < n < 0x100_0000,
            pow2(j) > 0,
    ;
    lemma_pow2_adds(10, (i - 10) as nat);
    assert((m * 0x400) * step == m * pow2(i)) by (nonlinear_arith)
        requires
            0x400 * step == pow2(i),
    ;
    assert((m * 0x400 - 1) * step == (m * 0x400) * step - step) by (nonlinear_arith);
    assert((m * 0x400 + 1) * step == (m * 0x400) * step + step) by (nonlinear_arith);
}

impl Single {
    /// Sum of two finite numbers, the first of which has the larger exponent.
    fn add_ordered(self, other: Single) -> (r: Single)
        requires
            self.is_finite(),
            other.is_finite(),
            self.shift() >= other.shift(),
        ensures
            r == self.sum(other),
    {
        let (m, i) = self.parts();
        let (n, j) = other.parts();
        let d: u32 = i - j;
        let ghost total = self.signed_units() + other.signed_units();
        let ghost num: nat = if total < 0 {
            (-total) as nat
        } else {
            total as nat
        };
        proof {
            lemma2_to64();
            lemma_pow2_pos(j as nat);
            lemma_pow2_pos(i as nat);
            assert(num * pow2(0) == num) by (nonlinear_arith)
                requires
                    pow2(0) == 1,
            ;
        }
        if d <= 39 {
            // Both terms as whole numbers of 2^j units.
            let scale = power_of_two(d);
            proof {
                lemma2_to64_rest();
                crate::rounding::lemma_pow2_monotonic(d as nat, 39);
                assert(m * scale < 0x100_0000 * 0x80_0000_0000) by (nonlinear_arith)
                    requires
                        0 <= m < 0x100_0000,
                        0 < scale <= 0x80_0000_0000,
                ;
            }
            let high: i128 = (m as u128 * scale) as i128;
            proof {
                lemma_pow2_adds(d as nat, j as nat);
                assert(high * pow2(j as nat) == self.units()) by (nonlinear_arith)
                    requires
                        high == m * pow2(d as nat),
                        pow2(d as nat) * pow2(j as nat) == pow2(i as nat),
                        self.units() == m * pow2(i as nat),
                ;
            }
            let low: i128 = n as i128;
            let x: i128 = if self.sign() {
                -high
            } else {
                high
            };
            let y: i128 = if other.sign() {
                -low
            } else {
                low
            };
            let steps: i128 = x + y;
            proof {
                let p = pow2(j as nat) as int;
                assert((-high) * p == -(high * p)) by (nonlinear_arith);
                assert((-low) * p == -(low * p)) by (nonlinear_arith);
                assert(total == steps * pow2(j as nat)) by (nonlinear_arith)
                    requires
                        total == self.signed_units() + other.signed_units(),
                        self.signed_units() == x * pow2(j as nat),
                        other.signed_units() == y * pow2(j as nat),
                        steps == x + y,
                ;
                assert((total == 0 <==> steps == 0) && (total > 0 <==> steps > 0))
                    by (nonlinear_arith)
                    requires
                        total == steps * pow2(j as nat),
                        pow2(j as nat) > 0,
                ;
            }
            if steps == 0 {
                return Single::signed(self.sign() && other.sign(), 0);
            }
            let size: u128 = if steps < 0 {
                (-steps) as u128
            } else {
                steps as u128
            };
            proof {
                assert(num == size * (1 * pow2(j as nat))) by (nonlinear_arith)
                    requires
                        total == steps * pow2(j as nat),
                        num == if total < 0 {
                            -total
                        } else {
                            total
                        },
                        size == if steps < 0 {
                            -steps
                        } else {
                            steps as int
                        },
                        total > 0 <==> steps > 0,
                ;
            }
            let r = round_steps(
                size,
                false,
                j as i32,
                Ghost(num),
                Ghost(1),
                Ghost(0),
                Ghost(j as nat),
            );
            Single::signed(steps < 0, r)
        } else if n == 0 {
            proof {
                assert(other.units() == 0) by (nonlinear_arith)
                    requires
                        other.units() == n * pow2(j as nat),
                        n == 0,
                ;
                lemma_exact(self);
                lemma_shift_bound(self);
            }
            self
        } else {
            proof {
                lemma_far_term(m as nat, i as nat, n as nat, j as nat);
                crate::rounding::lemma_bit_len_bounds((m * 0x400 - 1) as nat);
                crate::rounding::lemma_bit_len_bounds((m * 0x400) as nat);
                if crate::rounding::bit_len((m * 0x400 - 1) as nat) < 25 {
                    crate::rounding::lemma_pow2_monotonic(
                        crate::rounding::bit_len((m * 0x400 - 1) as nat),
                        24,
                    );
                }
                if crate::rounding::bit_len((m * 0x400) as nat) < 25 {
                    crate::rounding::lemma_pow2_monotonic(
                        crate::rounding::bit_len((m * 0x400) as nat),
                        24,
                    );
                }
                assert(m * 0x400 >= 0x100_0000);
                crate::rounding::lemma_pow2_monotonic((i - 10) as nat, i as nat);
                assert(m * pow2(i as nat) >= pow2(i as nat)) by (nonlinear_arith)
                    requires
                        m >= 1,
                ;
            }
            let digits: u128 = if self.sign() == other.sign() {
                (m as u128) * 0x400
            } else {
                (m as u128) * 0x400 - 1
            };
            let r = round_steps(
                digits,
                true,
                i as i32 - 10,
                Ghost(num),
                Ghost(1),
                Ghost(0),
                Ghost((i - 10) as nat),
            );
            Single::signed(self.sign(), r)
        }
    }

    /// Sum of two numbers.
    pub fn plus(self, other: Single) -> (r: Single)
        ensures
            r == self.sum(other),
    {
        let x = self.unsigned();
        let y = other.unsigned();
        if x > INFINITY_MAGNITUDE || y > INFINITY_MAGNITUDE {
            return Single { bits: 0x7fc0_0000 };
        }
        if x == INFINITY_MAGNITUDE {
            if y == INFINITY_MAGNITUDE && self.sign() != other.sign() {
                return Single { bits: 0x7fc0_0000 };
            }
            return self;
        }
        if y == INFINITY_MAGNITUDE {
            return other;
        }
        if self.parts().1 >= other.parts().1 {
            self.add_ordered(other)
        } else {
            other.add_ordered(self)
        }
    }

    /// The number with the other sign.
    pub fn negated(self) -> (r: Single)
        ensures
            r == self.opposite(),
    {
        Single::signed(!self.sign(), self.unsigned())
    }

    /// Difference of two numbers.
    pub fn minus(self, other: Single) -> (r: Single)
        ensures
            r == self.difference(other),
    {
        self.plus(other.negated())
    }

    /// The number without its sign.
    pub fn abs(self) -> (r: Single)
        ensures
            r == self.absolute(),
    {
        Single::signed(false, self.unsigned())
    }

    fn rank_of(self) -> (r: i64)
        ensures
            r == self.rank(),
    {
        if self.sign() {
            -(self.unsigned() as i64)
        } else {
            self.unsigned() as i64
        }
    }

    /// `self <= other`.
    pub fn at_most(self, other: Single) -> (r: bool)
        ensures
            r == self.le(other),
    {
        !self.not_a_number() && !other.not_a_number() && self.rank_of() <= other.rank_of()
    }

    /// `self < other`.
    pub fn below(self, other: Single) -> (r: bool)
        ensures
            r == self.lt(other),
    {
        !self.not_a_number() && !other.not_a_number() && self.rank_of() < other.rank_of()
    }

    /// The smaller of two numbers.
    pub fn min(self, other: Single) -> (r: Single)
        ensures
            r == self.smaller(other),
    {
        if other.not_a_number() || self.at_most(other) {
            self
        } else {
            other
        }
    }

    /// The larger of two numbers.
    pub fn max(self, other: Single) -> (r: Single)
        ensures
            r == self.larger(other),
    {
        if other.not_a_number() || other.at_most(self) {
            self
        } else {
            other
        }
    }

    /// The number kept between two bounds.
    pub fn clamp(self, low: Single, high: Single) -> (r: Single)
        ensures
            r == self.clamped(low, high),
    {
        if self.below(low) {
            low
        } else if high.below(self) {
            high
        } else {
            self
        }
    }

    /// Single nearest to an integer.
    pub fn from_u32(n: u32) -> (r: Single)
        ensures
            r == whole(n as nat),
    {
        proof {
            lemma2_to64();
            assert((n * pow2(149)) * pow2(0) == n * (1 * pow2(149))) by (nonlinear_arith)
                requires
                    pow2(0) == 1,
            ;
        }
        let r = round_steps(
            n as u128,
            false,
            149,
            Ghost((n as nat) * pow2(149)),
            Ghost(1),
            Ghost(0),
            Ghost(149),
        );
        Single::signed(false, r)
    }

    /// Single nearest to the double with the given bit pattern.
    pub fn from_double(bits: u64) -> (r: Single)
        ensures
            r == narrowed(bits),
    {
        let neg = bits >= 0x8000_0000_0000_0000;
        let magnitude = bits % 0x8000_0000_0000_0000;
        if magnitude > 0x7ff0_0000_0000_0000 {
            return Single { bits: 0x7fc0_0000 };
        }
        if magnitude == 0x7ff0_0000_0000_0000 {
            return Single::signed(neg, INFINITY_MAGNITUDE);
        }
        let (digits, shift): (u64, u64) = if magnitude < 0x10_0000_0000_0000 {
            (magnitude, 0)
        } else {
            (
                0x10_0000_0000_0000 + magnitude % 0x10_0000_0000_0000,
                magnitude / 0x10_0000_0000_0000 - 1,
            )
        };
        let e: i32 = shift as i32 - 925;
        let ghost num = digits as nat * pow2(shift as nat);
        proof {
            lemma_pow2_pos(925);
            assert(num * pow2(925) == digits * (pow2(925) * pow2(shift as nat)))
                by (nonlinear_arith)
                requires
                    num == digits * pow2(shift as nat),
            ;
        }
        let r = round_steps(
            digits as u128,
            false,
            e,
            Ghost(num),
            Ghost(pow2(925)),
            Ghost(925),
            Ghost(shift as nat),
        );
        Single::signed(neg, r)
    }
}

/// The nearest integer, from digits and exponent.
proof fn lemma_nearest_whole(m: nat, shift: nat)
    ensures
        shift >= 149 ==> (2 * (m * pow2(shift)) + pow2(149)) / pow2(150) == m * pow2(
            (shift - 149) as nat,
        ),
        shift < 149 ==> ({
            let t = (149 - shift) as nat;
            (2 * (m * pow2(shift)) + pow2(149)) / pow2(150) == (2 * m + pow2(t)) / pow2(t + 1)
        }),
{
    let num = 2 * (m * pow2(shift)) + pow2(149);
    let unit = pow2(150);
    vstd::arithmetic::power2::lemma_pow2_unfold(150);
    lemma_pow2_pos(149);
    if shift >= 149 {
        let v = m * pow2((shift - 149) as nat);
        lemma_pow2_adds((shift - 149) as nat, 149);
        assert(num == v * unit + pow2(149)) by (nonlinear_arith)
            requires
                num == 2 * (m * pow2(shift)) + pow2(149),
                pow2(shift) == pow2((shift - 149) as nat) * pow2(149),
                v == m * pow2((shift - 149) as nat),
                unit == 2 * pow2(149),
        ;
        lemma_fundamental_div_mod_converse(num as int, unit as int, v as int, pow2(149) as int);
    } else {
        let t = (149 - shift) as nat;
        let p = pow2(shift);
        let d = pow2(t + 1);
        let n = 2 * m + pow2(t);
        lemma_pow2_adds(t, shift);
        lemma_pow2_adds(t + 1, shift);
        lemma_pow2_pos(shift);
        lemma_pow2_pos(t + 1);
        lemma_fundamental_div_mod(n as int, d as int);
        let q = n / d;
        let r = n % d;
        assert(num == q * unit + r * p) by (nonlinear_arith)
            requires
                num == 2 * (m * p) + pow2(149),
                pow2(149) == pow2(t) * p,
                unit == d * p,
                n == 2 * m + pow2(t),
                n == d * q + r,
        ;
        assert(0 <= r * p < unit) by (nonlinear_arith)
            requires
                0 <= r < d,
                p > 0,
                unit == d * p,
        ;
        lemma_fundamental_div_mod_converse(num as int, unit as int, q as int, (r * p) as int);
    }
}

impl Single {
    /// Nearest integer between zero and `max`, halves going up; zero for a NaN.
    pub fn round_saturating(self, max: u32) -> (r: u32)
        ensures
            r == self.saturated(max as nat),
    {
        let magnitude = self.unsigned();
        if magnitude > INFINITY_MAGNITUDE || self.sign() {
            return 0;
        }
        if magnitude == INFINITY_MAGNITUDE {
            return max;
        }
        let (m, i) = self.parts();
        proof {
            lemma_nearest_whole(m as nat, i as nat);
            lemma2_to64();
        }
        if i >= 149 {
            if i > 157 {
                proof {
                    crate::rounding::lemma_pow2_monotonic(9, (i - 149) as nat);
                    assert(m * pow2((i - 149) as nat) >= 0x80_0000 * 0x200) by (nonlinear_arith)
                        requires
                            m >= 0x80_0000,
                            pow2((i - 149) as nat) >= 0x200,
                    ;
                }
                return max;
            }
            let scale = power_of_two(i - 149);
            proof {
                crate::rounding::lemma_pow2_monotonic((i - 149) as nat, 8);
                assert(m * scale <= 0x100_0000 * 0x100) by (nonlinear_arith)
                    requires
                        0 <= m < 0x100_0000,
                        0 < scale <= 0x100,
                ;
            }
            let n: u128 = m as u128 * scale;
            if n > max as u128 {
                max
            } else {
                n as u32
            }
        } else {
            let t: u32 = 149 - i;
            if t > 25 {
                proof {
                    crate::rounding::lemma_pow2_monotonic(26, t as nat);
                    vstd::arithmetic::power2::lemma_pow2_unfold((t + 1) as nat);
                    lemma_fundamental_div_mod_converse(
                        2 * m + pow2(t as nat),
                        pow2((t + 1) as nat) as int,
                        0,
                        2 * m + pow2(t as nat),
                    );
                }
                return 0;
            }
            let half = power_of_two(t);
            let one = power_of_two(t + 1);
            proof {
                crate::rounding::lemma_pow2_monotonic(t as nat, 25);
            }
            let n: u128 = (2 * m as u128 + half) / one;
            proof {
                assert(n <= 2 * m + half) by (nonlinear_arith)
                    requires
                        n == (2 * m + half) / (one as int),
                        one > 0,
                        2 * m + half >= 0,
                ;
            }
            if n > max as u128 {
                max
            } else {
                n as u32
            }
        }
    }

    /// Nearest integer, halves going away from zero.
    pub fn round(self) -> (r: Single)
        ensures
            r == self.rounded(),
    {
        if self.unsigned() >= INFINITY_MAGNITUDE {
            return self;
        }
        let (m, i) = self.parts();
        proof {
            lemma_nearest_whole(m as nat, i as nat);
            lemma2_to64();
        }
        if i >= 149 {
            proof {
                lemma_pow2_adds((i - 149) as nat, 149);
                assert(self.nearest_whole() * pow2(149) == self.units()) by (nonlinear_arith)
                    requires
                        self.nearest_whole() == m * pow2((i - 149) as nat),
                        self.units() == m * pow2(i as nat),
                        pow2(i as nat) == pow2((i - 149) as nat) * pow2(149),
                ;
                lemma_exact(self);
            }
            return self;
        }
        let t: u32 = 149 - i;
        let n: u128 = if t > 25 {
            proof {
                crate::rounding::lemma_pow2_monotonic(26, t as nat);
                vstd::arithmetic::power2::lemma_pow2_unfold((t + 1) as nat);
                lemma_fundamental_div_mod_converse(
                    2 * m + pow2(t as nat),
                    pow2((t + 1) as nat) as int,
                    0,
                    2 * m + pow2(t as nat),
                );
            }
            0
        } else {
            let half = power_of_two(t);
            let one = power_of_two(t + 1);
            proof {
                crate::rounding::lemma_pow2_monotonic(t as nat, 25);
            }
            (2 * m as u128 + half) / one
        };
        assert(n == self.nearest_whole());
        proof {
            assert((n * pow2(149)) * pow2(0) == n * (1 * pow2(149))) by (nonlinear_arith)
                requires
                    pow2(0) == 1,
            ;
        }
        let r = round_steps(
            n,
            false,
            149,
            Ghost((n as nat) * pow2(149)),
            Ghost(1),
            Ghost(0),
            Ghost(149),
        );
        Single::signed(self.sign(), r)
    }
}

/// Between finite numbers, rank and value give the same order.
pub proof fn lemma_rank_orders_values(x: Single, y: Single)
    requires
        x.is_finite(),
        y.is_finite(),
    ensures
        x.rank() <= y.rank() <==> x.signed_units() <= y.signed_units(),
{
    lemma_magnitude_orders_units(x, y);
    lemma_magnitude_orders_units(y, x);
    lemma_shift_bound(x);
    lemma_shift_bound(y);
}

proof fn lemma_magnitude_orders_units(x: Single, y: Single)
    requires
        x.is_finite(),
        y.is_finite(),
    ensures
        x.magnitude() < y.magnitude() ==> x.units() < y.units(),
        x.magnitude() == y.magnitude() ==> x.units() == y.units(),
{
    let (m, i) = (x.significand(), x.shift());
    let (n, j) = (y.significand(), y.shift());
    lemma_shift_bound(x);
    lemma_shift_bound(y);
    lemma_pow2_pos(i);
    if x.magnitude() < y.magnitude() {
        if i == j {
            assert(m * pow2(i) < n * pow2(i)) by (nonlinear_arith)
                requires
                    m < n,
                    pow2(i) > 0,
            ;
        } else {
            assert(i < j);
            crate::rounding::lemma_pow2_monotonic(i + 1, j);
            vstd::arithmetic::power2::lemma_pow2_unfold(i + 1);
            assert(m * pow2(i) < n * pow2(j)) by (nonlinear_arith)
                requires
                    m < 0x100_0000,
                    n >= 0x80_0000,
                    pow2(i) > 0,
                    pow2(j) >= 2 * pow2(i),
            ;
        }
    }
}

} // verus!
