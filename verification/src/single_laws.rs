//! Arithmetic on singles, by value: every operation gives the number nearest to the exact result.
use crate::single::Single;
use vstd::arithmetic::power2::lemma_pow2_adds;
use vstd::arithmetic::power2::lemma_pow2_pos;
use vstd::arithmetic::power2::pow2;
use vstd::prelude::*;

verus! {

/// How far a number is from a value in units of 2^-149.
pub open spec fn off(x: Single, value: int) -> int {
    crate::accuracy::distance(x.signed_units(), value)
}

proof fn lemma_nearest_signed(r: Single, total: int, other: Single)
    requires
        other.is_finite(),
        -pow2(276) < total < pow2(276),
        total > 0 ==> r == crate::single::nearest(false, total as nat, 1),
        total < 0 ==> r == crate::single::nearest(true, (-total) as nat, 1),
        total == 0 ==> r.is_finite() && r.units() == 0,
    ensures
        r.is_finite(),
        off(r, total) <= off(other, total),
{
    if total != 0 {
        let neg = total < 0;
        let size: nat = if neg {
            (-total) as nat
        } else {
            total as nat
        };
        crate::accuracy::law_rounding_is_nearest(neg, size, 1, other);
        crate::accuracy::lemma_nearest_is_number(neg, size, 1);
    }
}

/// A number without digits has no value.
proof fn lemma_zero(neg: bool)
    ensures
        crate::single::with_sign(neg, 0).is_finite(),
        crate::single::with_sign(neg, 0).units() == 0,
{
    let x = crate::single::with_sign(neg, 0);
    assert(x.significand() == 0);
}

/// No number is nearer to the exact sum, and none to the exact difference.
pub proof fn law_sum_and_difference(x: Single, y: Single, sum: Single, diff: Single, other: Single)
    requires
        call_ensures(Single::plus, (x, y), sum),
        call_ensures(Single::minus, (x, y), diff),
        x.is_finite() && y.is_finite() && other.is_finite(),
        -pow2(276) < x.signed_units() + y.signed_units() < pow2(276),
        -pow2(276) < x.signed_units() - y.signed_units() < pow2(276),
    ensures
        sum.is_finite() && diff.is_finite(),
        off(sum, x.signed_units() + y.signed_units()) <= off(
            other,
            x.signed_units() + y.signed_units(),
        ),
        off(diff, x.signed_units() - y.signed_units()) <= off(
            other,
            x.signed_units() - y.signed_units(),
        ),
{
    lemma_zero(true);
    lemma_zero(false);
    crate::protocol::dummy::lemma_difference_is_number(x, y);
    lemma_nearest_signed(sum, x.signed_units() + y.signed_units(), other);
    lemma_nearest_signed(diff, x.signed_units() - y.signed_units(), other);
}

/// No number is nearer to the exact product, and the sign is minus where one of the two is.
pub proof fn law_product(x: Single, y: Single, r: Single, other: Single)
    requires
        call_ensures(Single::times, (x, y), r),
        x.is_finite() && y.is_finite() && other.is_finite(),
        x.units() * y.units() < pow2(149) * pow2(276),
    ensures
        r.is_finite(),
        r.negative() == (x.negative() != y.negative()),
        crate::accuracy::distance((r.units() * pow2(149)) as int, (x.units() * y.units()) as int)
            <= crate::accuracy::distance(
            (other.units() * pow2(149)) as int,
            (x.units() * y.units()) as int,
        ),
{
    let neg = x.negative() != y.negative();
    lemma_pow2_pos(149);
    crate::accuracy::law_rounding_is_nearest(neg, x.units() * y.units(), pow2(149), other);
    crate::accuracy::lemma_nearest_is_number(neg, x.units() * y.units(), pow2(149));
}

/// No number is nearer to the exact quotient, and the sign is minus where one of the two is.
pub proof fn law_quotient(x: Single, y: Single, r: Single, other: Single)
    requires
        call_ensures(Single::divided_by, (x, y), r),
        x.is_finite() && y.is_finite() && other.is_finite(),
        y.units() > 0,
        x.units() * pow2(149) < y.units() * pow2(276),
    ensures
        r.is_finite(),
        r.negative() == (x.negative() != y.negative()),
        crate::accuracy::distance((r.units() * y.units()) as int, (x.units() * pow2(149)) as int)
            <= crate::accuracy::distance(
            (other.units() * y.units()) as int,
            (x.units() * pow2(149)) as int,
        ),
{
    let neg = x.negative() != y.negative();
    assert(!y.is_zero()) by {
        if y.is_zero() {
            assert(y.significand() == 0 && y.shift() == 0);
            vstd::arithmetic::power2::lemma2_to64();
        }
    }
    crate::accuracy::law_rounding_is_nearest(neg, x.units() * pow2(149), y.units(), other);
    crate::accuracy::lemma_nearest_is_number(neg, x.units() * pow2(149), y.units());
}

/// Comparing numbers compares their values. The smaller, the larger and the kept number are what
/// they say.
pub proof fn law_order(
    x: Single,
    y: Single,
    high: Single,
    at_most: bool,
    below: bool,
    smaller: Single,
    larger: Single,
    kept: Single,
)
    requires
        x.is_finite() && y.is_finite() && high.is_finite(),
        call_ensures(Single::at_most, (x, y), at_most),
        call_ensures(Single::below, (x, y), below),
        call_ensures(Single::min, (x, y), smaller),
        call_ensures(Single::max, (x, y), larger),
        call_ensures(Single::clamp, (x, y, high), kept),
        y.signed_units() <= high.signed_units(),
    ensures
        at_most <==> x.signed_units() <= y.signed_units(),
        below <==> x.signed_units() < y.signed_units(),
        smaller == x || smaller == y,
        smaller.signed_units() <= x.signed_units() && smaller.signed_units() <= y.signed_units(),
        larger == x || larger == y,
        larger.signed_units() >= x.signed_units() && larger.signed_units() >= y.signed_units(),
        y.signed_units() <= kept.signed_units() <= high.signed_units(),
        y.signed_units() <= x.signed_units() <= high.signed_units() ==> kept == x,
        x.signed_units() < y.signed_units() ==> kept == y,
        x.signed_units() > high.signed_units() ==> kept == high,
{
    crate::single::lemma_rank_orders_values(x, y);
    crate::single::lemma_rank_orders_values(y, x);
    crate::single::lemma_rank_orders_values(x, high);
    crate::single::lemma_rank_orders_values(high, x);
    crate::single::lemma_rank_orders_values(y, high);
}

/// A comparison with what is no number is false.
pub proof fn law_nan_compares_false(x: Single, y: Single, at_most: bool, below: bool)
    requires
        call_ensures(Single::at_most, (x, y), at_most),
        call_ensures(Single::below, (x, y), below),
        x.is_nan() || y.is_nan(),
    ensures
        !at_most && !below,
{
}

/// A number with the other sign has the other value, and one without its sign is not negative.
pub proof fn law_signs(x: Single, opposite: Single, size: Single)
    requires
        x.is_finite(),
        call_ensures(Single::negated, (x,), opposite),
        call_ensures(Single::abs, (x,), size),
    ensures
        opposite.is_finite() && opposite.signed_units() == -x.signed_units(),
        size.is_finite() && size.signed_units() >= 0,
        size.signed_units() == x.signed_units() || size.signed_units() == -x.signed_units(),
{
}

proof fn lemma_whole_near(x: Single)
    requires
        x.is_finite(),
    ensures
        -pow2(149) < 2 * (x.nearest_whole() * pow2(149) - x.units()) <= pow2(149),
{
    let u = pow2(149);
    lemma_pow2_pos(149);
    vstd::arithmetic::power2::lemma2_to64();
    lemma_pow2_adds(1, 149);
    let w = x.nearest_whole();
    let n = 2 * x.units() + u;
    vstd::arithmetic::div_mod::lemma_fundamental_div_mod(n as int, pow2(150) as int);
    vstd::arithmetic::div_mod::lemma_mod_bound(n as int, pow2(150) as int);
    assert(pow2(150) * w == 2 * (w * u)) by (nonlinear_arith)
        requires
            pow2(150) == 2 * u,
    ;
}

/// A rounded number is whole and at most half off, and a half goes away from zero.
pub proof fn law_round(x: Single, r: Single) -> (w: nat)
    requires
        call_ensures(Single::round, (x,), r),
        x.is_finite(),
        x.units() < 0x80_0000 * pow2(149),
    ensures
        r.is_finite(),
        r.negative() == x.negative(),
        r.units() == w * pow2(149),
        -pow2(149) < 2 * (r.units() - x.units()) <= pow2(149),
{
    let w = x.nearest_whole();
    let u = pow2(149);
    lemma_pow2_pos(149);
    lemma_whole_near(x);
    assert(w < 0x100_0000) by (nonlinear_arith)
        requires
            2 * (w * u - x.units()) <= u,
            x.units() < 0x80_0000 * u,
            u > 0,
    ;
    crate::accuracy::lemma_nearest_exact(x.negative(), w, 149);
    w
}

/// A number as an integer is at most half off, a half goes up, and what is below zero or above the
/// largest integer is cut off.
pub proof fn law_round_saturating(x: Single, max: u32, r: u32)
    requires
        call_ensures(Single::round_saturating, (x, max), r),
    ensures
        r <= max,
        x.is_nan() ==> r == 0,
        x.is_finite() && x.signed_units() <= 0 ==> r == 0,
        x.is_infinite() && !x.negative() ==> r == max,
        x.is_finite() && 0 < r < max ==> -pow2(149) < 2 * (r * pow2(149) - x.signed_units())
            <= pow2(149),
        x.is_finite() && 2 * x.signed_units() >= pow2(149) && max > 0 ==> r > 0,
        x.is_finite() && r == max && max > 0 ==> 2 * x.signed_units() >= (2 * max - 1) * pow2(149),
{
    lemma_pow2_pos(149);
    if x.is_finite() {
        lemma_whole_near(x);
        let u = pow2(149);
        let w = x.nearest_whole();
        if x.units() == 0 {
            assert(w == 0) by (nonlinear_arith)
                requires
                    2 * (w * u) <= u,
                    u > 0,
            ;
        }
        if !x.negative() && 2 * x.units() >= u {
            assert(w > 0) by (nonlinear_arith)
                requires
                    -u < 2 * (w * u - x.units()),
                    2 * x.units() >= u,
                    u > 0,
            ;
        }
        if r == max && max > 0 {
            assert(w * u >= max * u) by (nonlinear_arith)
                requires
                    w >= max,
                    u > 0,
            ;
            assert((2 * max - 1) * u == 2 * (max * u) - u) by (nonlinear_arith);
        }
    }
}

/// Integers of up to 24 binary digits are taken over without rounding.
pub proof fn law_integers(n: u32, r: Single)
    requires
        call_ensures(Single::from_u32, (n,), r),
        n < 0x100_0000,
    ensures
        r.is_finite(),
        r.signed_units() == n * pow2(149),
{
    crate::accuracy::lemma_whole_exact(n as nat);
}

} // verus!
