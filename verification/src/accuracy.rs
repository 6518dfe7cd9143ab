//! How far a rounded single lies from the exact quantity.
use crate::single::Single;
use vstd::arithmetic::div_mod::lemma_fundamental_div_mod;
use vstd::arithmetic::power2::lemma2_to64;
use vstd::arithmetic::power2::lemma_pow2_adds;
use vstd::arithmetic::power2::lemma_pow2_pos;
use vstd::arithmetic::power2::lemma_pow2_unfold;
use vstd::arithmetic::power2::pow2;
use vstd::prelude::*;

verus! {

/// Twice the distance of `whole * den` from `num` is at most `den`.
proof fn lemma_half_even_error(num: nat, den: nat)
    requires
        den > 0,
    ensures
        ({
            let h = crate::rounding::half_even(num, den);
            &&& 2 * (h * den - num) <= den
            &&& 2 * (num - h * den) <= den
            &&& num / den <= h <= num / den + 1
        }),
{
    let q = num / den;
    let r = num % den;
    lemma_fundamental_div_mod(num as int, den as int);
    assert(q * den == den * q) by (nonlinear_arith);
    assert((q + 1) * den == q * den + den) by (nonlinear_arith);
}

/// The digits that are kept, where `e` low digits are dropped.
proof fn lemma_kept_digits(num: nat, den: nat)
    requires
        den > 0,
    ensures
        ({
            let e = crate::rounding::excess_bits(num / den);
            let h = crate::rounding::half_even(num, den * pow2(e));
            &&& h <= 0x100_0000
            &&& e > 0 ==> h >= 0x80_0000
        }),
{
    let n = num / den;
    let e = crate::rounding::excess_bits(n);
    let p = pow2(e);
    let d = den * p;
    lemma_pow2_pos(e);
    lemma2_to64();
    assert(d > 0) by (nonlinear_arith)
        requires
            den > 0,
            p > 0,
            d == den * p,
    ;
    lemma_half_even_error(num, d);
    lemma_fundamental_div_mod(num as int, den as int);
    lemma_fundamental_div_mod(num as int, d as int);
    let q = num / d;
    assert(n < 0x100_0000 * p) by {
        if n > 0 {
            crate::rounding::lemma_bit_len_bounds(n);
            lemma_pow2_adds(24, e);
            crate::rounding::lemma_pow2_monotonic(crate::rounding::bit_len(n), 24 + e);
        }
    }
    assert(q < 0x100_0000) by (nonlinear_arith)
        requires
            num == den * n + num % den,
            num % den < den,
            n + 1 <= 0x100_0000 * p,
            num == d * q + num % d,
            num % d >= 0,
            d == den * p,
            d > 0,
            den > 0,
    ;
    if e > 0 {
        crate::rounding::lemma_bit_len_bounds(n);
        lemma_pow2_adds(23, e);
        assert(q >= 0x80_0000) by (nonlinear_arith)
            requires
                num == den * n + num % den,
                num % den >= 0,
                n >= 0x80_0000 * p,
                num == d * q + num % d,
                num % d < d,
                d == den * p,
                d > 0,
                den > 0,
        ;
    }
}

/// The value of a number put together from `digits` steps of `2^e` units.
proof fn lemma_assembled(neg: bool, e: nat, digits: nat)
    requires
        e <= 252,
        digits <= 0x100_0000,
        e > 0 ==> digits >= 0x80_0000,
    ensures
        ({
            let x = crate::single::with_sign(neg, e * 0x80_0000 + digits);
            &&& x.is_finite()
            &&& x.negative() == neg
            &&& x.units() == digits * pow2(e)
        }),
{
    let x = crate::single::with_sign(neg, e * 0x80_0000 + digits);
    let m = e * 0x80_0000 + digits;
    lemma2_to64();
    assert(m <= 252 * 0x80_0000 + 0x100_0000);
    assert(x.magnitude() == m);
    if digits == 0x100_0000 {
        assert(m == (e + 2) * 0x80_0000);
        assert(x.shift() == e + 1);
        assert(x.significand() == 0x80_0000);
        lemma_pow2_unfold(e + 1);
        assert(0x80_0000 * (2 * pow2(e)) == 0x100_0000 * pow2(e)) by (nonlinear_arith);
    } else if digits >= 0x80_0000 {
        assert(m / 0x80_0000 == e + 1);
        assert(x.significand() == digits);
    } else {
        assert(digits * pow2(0) == digits);
    }
}

/// A quantity below `2^(24 + k)` units is rounded by at most half of `2^k` units.
pub proof fn lemma_nearest_error(neg: bool, num: nat, den: nat, k: nat)
    requires
        den > 0,
        k <= 252,
        num < den * pow2(24 + k),
    ensures
        ({
            let x = crate::single::nearest(neg, num, den);
            &&& x.is_finite()
            &&& x.negative() == neg
            &&& 2 * (x.units() * den - num) <= den * pow2(k)
            &&& 2 * (num - x.units() * den) <= den * pow2(k)
        }),
{
    let n = num / den;
    let e = crate::rounding::excess_bits(n);
    let d = den * pow2(e);
    let h = crate::rounding::half_even(num, d);
    let x = crate::single::nearest(neg, num, den);
    lemma_pow2_pos(e);
    lemma_fundamental_div_mod(num as int, den as int);
    assert(n < pow2(24 + k)) by (nonlinear_arith)
        requires
            num == den * n + num % den,
            num % den >= 0,
            num < den * pow2(24 + k),
            den > 0,
    ;
    crate::rounding::lemma_bit_len_at_most(n, 24 + k);
    assert(e <= k);
    crate::rounding::lemma_pow2_monotonic(e, k);
    assert(d > 0) by (nonlinear_arith)
        requires
            den > 0,
            pow2(e) > 0,
            d == den * pow2(e),
    ;
    lemma_half_even_error(num, d);
    lemma_kept_digits(num, den);
    lemma_assembled(neg, e, h);
    assert(x == crate::single::with_sign(neg, e * 0x80_0000 + h));
    assert(x.units() * den == h * d) by (nonlinear_arith)
        requires
            x.units() == h * pow2(e),
            d == den * pow2(e),
    ;
    assert(d <= den * pow2(k)) by (nonlinear_arith)
        requires
            d == den * pow2(e),
            pow2(e) <= pow2(k),
            den > 0,
    ;
}

/// A multiple of `2^k` units below `2^(24 + k)` units is a single.
pub proof fn lemma_nearest_exact(neg: bool, count: nat, k: nat)
    requires
        k <= 252,
        count < 0x100_0000,
    ensures
        ({
            let x = crate::single::nearest(neg, count * pow2(k), 1);
            &&& x.is_finite()
            &&& x.negative() == neg
            &&& x.units() == count * pow2(k)
        }),
{
    let num = count * pow2(k);
    let x = crate::single::nearest(neg, num, 1);
    lemma2_to64();
    lemma_pow2_pos(k);
    lemma_pow2_adds(24, k);
    assert(num < 1 * pow2(24 + k)) by (nonlinear_arith)
        requires
            num == count * pow2(k),
            count < 0x100_0000,
            pow2(24 + k) == 0x100_0000 * pow2(k),
            pow2(k) > 0,
    ;
    let e = crate::rounding::excess_bits(num);
    assert(num / 1 == num);
    crate::rounding::lemma_bit_len_at_most(num, 24 + k);
    let c = count * pow2((k - e) as nat);
    let d = 1 * pow2(e);
    lemma_pow2_pos(e);
    lemma_pow2_adds((k - e) as nat, e);
    assert(num == c * d) by (nonlinear_arith)
        requires
            num == count * pow2(k),
            pow2(k) == pow2((k - e) as nat) * pow2(e),
            c == count * pow2((k - e) as nat),
            d == 1 * pow2(e),
    ;
    vstd::arithmetic::div_mod::lemma_fundamental_div_mod_converse(
        num as int,
        d as int,
        c as int,
        0,
    );
    assert(crate::rounding::half_even(num, d) == c);
    lemma_kept_digits(num, 1);
    lemma_assembled(neg, e, c);
}

/// A whole number of at most 24 digits is a single.
pub proof fn lemma_whole_exact(n: nat)
    requires
        n < 0x100_0000,
    ensures
        crate::single::whole(n).is_finite(),
        !crate::single::whole(n).negative(),
        crate::single::whole(n).units() == n * pow2(149),
{
    lemma_nearest_exact(false, n, 149);
}

/// A larger quantity never rounds to a smaller number.
pub proof fn lemma_round_monotonic(a: nat, b: nat, den: nat)
    requires
        den > 0,
        a <= b,
    ensures
        crate::rounding::round_magnitude(a, den) <= crate::rounding::round_magnitude(b, den),
{
    let (m, n) = (a / den, b / den);
    let (i, j) = (crate::rounding::excess_bits(m), crate::rounding::excess_bits(n));
    vstd::arithmetic::div_mod::lemma_div_is_ordered(a as int, b as int, den as int);
    lemma_bit_len_monotonic(m, n);
    lemma_kept_digits(a, den);
    lemma_kept_digits(b, den);
    if i == j {
        lemma_pow2_pos(i);
        assert(den * pow2(i) > 0) by (nonlinear_arith)
            requires
                den > 0,
                pow2(i) > 0,
        ;
        lemma_half_even_monotonic(a, b, den * pow2(i));
    } else {
        assert(i + 1 <= j);
    }
}

proof fn lemma_bit_len_monotonic(m: nat, n: nat)
    requires
        m <= n,
    ensures
        crate::rounding::bit_len(m) <= crate::rounding::bit_len(n),
    decreases n,
{
    if m > 0 {
        lemma_bit_len_monotonic(m / 2, n / 2);
    }
}

proof fn lemma_half_even_monotonic(a: nat, b: nat, den: nat)
    requires
        den > 0,
        a <= b,
    ensures
        crate::rounding::half_even(a, den) <= crate::rounding::half_even(b, den),
{
    vstd::arithmetic::div_mod::lemma_div_is_ordered(a as int, b as int, den as int);
    lemma_fundamental_div_mod(a as int, den as int);
    lemma_fundamental_div_mod(b as int, den as int);
}

/// A rounded quantity is a number with the sign asked for.
pub proof fn lemma_nearest_is_number(neg: bool, num: nat, den: nat)
    ensures
        !crate::single::nearest(neg, num, den).is_nan(),
        crate::single::nearest(neg, num, den).negative() == neg,
        crate::single::nearest(neg, num, den).magnitude() == crate::rounding::round_magnitude(
            num,
            den,
        ),
{
}

/// A number kept between two bounds lies between them.
pub proof fn lemma_clamped_between(x: Single, low: Single, high: Single)
    requires
        !x.is_nan(),
        low.le(high),
    ensures
        low.le(x.clamped(low, high)),
        x.clamped(low, high).le(high),
{
}

/// The distance of two numbers.
pub open spec fn distance(a: int, b: int) -> int {
    if a < b {
        b - a
    } else {
        a - b
    }
}

/// No multiple of `den` is nearer to `num` than the rounded one.
proof fn lemma_half_even_nearest(num: nat, den: nat, other: nat)
    requires
        den > 0,
    ensures
        distance((crate::rounding::half_even(num, den) * den) as int, num as int) <= distance(
            (other * den) as int,
            num as int,
        ),
{
    let h = crate::rounding::half_even(num, den);
    lemma_half_even_error(num, den);
    if other > h {
        assert(other * den >= h * den + den) by (nonlinear_arith)
            requires
                other >= h + 1,
        ;
    } else if other < h {
        assert(other * den + den <= h * den) by (nonlinear_arith)
            requires
                other + 1 <= h,
        ;
    }
}

/// Of all singles, the rounded one is nearest to the exact quantity `num / den`, where that
/// is not beyond all of them.
pub proof fn law_rounding_is_nearest(neg: bool, num: nat, den: nat, other: Single)
    requires
        den > 0,
        num < den * pow2(276),
        other.is_finite(),
    ensures
        crate::single::nearest(neg, num, den).is_finite(),
        distance(
            (crate::single::nearest(neg, num, den).units() * den) as int,
            num as int,
        ) <= distance((other.units() * den) as int, num as int),
{
    let n = num / den;
    let e = crate::rounding::excess_bits(n);
    let d = den * pow2(e);
    let h = crate::rounding::half_even(num, d);
    let x = crate::single::nearest(neg, num, den);
    lemma_nearest_error(neg, num, den, 252);
    lemma_fundamental_div_mod(num as int, den as int);
    assert(n < pow2(276)) by (nonlinear_arith)
        requires
            num == den * n + num % den,
            num % den >= 0,
            num < den * pow2(276),
            den > 0,
    ;
    crate::rounding::lemma_bit_len_at_most(n, 276);
    lemma_kept_digits(num, den);
    lemma_assembled(neg, e, h);
    lemma_pow2_pos(e);
    assert(d > 0) by (nonlinear_arith)
        requires
            den > 0,
            pow2(e) > 0,
            d == den * pow2(e),
    ;
    assert(x.units() * den == h * d) by (nonlinear_arith)
        requires
            x.units() == h * pow2(e),
            d == den * pow2(e),
    ;
    let (m, t) = (other.significand(), other.shift());
    lemma_pow2_pos(t);
    if t >= e {
        let j = m * pow2((t - e) as nat);
        lemma_pow2_adds((t - e) as nat, e);
        assert(other.units() * den == j * d) by (nonlinear_arith)
            requires
                other.units() == m * pow2(t),
                pow2(t) == pow2((t - e) as nat) * pow2(e),
                j == m * pow2((t - e) as nat),
                d == den * pow2(e),
        ;
        lemma_half_even_nearest(num, d, j);
    } else {
        // A number with a finer last digit lies below the whole range of the rounded one.
        lemma2_to64();
        lemma_half_even_nearest(num, d, 0x80_0000);
        lemma_pow2_unfold(e);
        crate::rounding::lemma_pow2_monotonic(t, (e - 1) as nat);
        crate::rounding::lemma_bit_len_bounds(n);
        lemma_pow2_adds(23, e);
        assert(other.units() * den <= 0x80_0000 * d) by (nonlinear_arith)
            requires
                other.units() == m * pow2(t),
                m < 0x100_0000,
                pow2(t) <= pow2((e - 1) as nat),
                pow2(e) == 2 * pow2((e - 1) as nat),
                pow2(t) > 0,
                d == den * pow2(e),
                den > 0,
        ;
        assert(0x80_0000 * d <= num) by (nonlinear_arith)
            requires
                num == den * n + num % den,
                num % den >= 0,
                n >= 0x80_0000 * pow2(e),
                d == den * pow2(e),
                den > 0,
        ;
    }
}

/// Of two whole numbers that are equally near, the even one is taken.
pub proof fn law_halves_go_to_even(num: nat, den: nat)
    requires
        den > 0,
        2 * distance((crate::rounding::half_even(num, den) * den) as int, num as int) == den,
    ensures
        crate::rounding::half_even(num, den) % 2 == 0,
{
    lemma_fundamental_div_mod(num as int, den as int);
    let q = num / den;
    assert(q * den == den * q) by (nonlinear_arith);
    assert((q + 1) * den == den * q + den) by (nonlinear_arith);
}

} // verus!
