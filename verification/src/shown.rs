//! Numbers with one decimal, as people read them.
use crate::rounding::power_of_two;
use crate::single::Single;
use crate::text::wide_decimal_text;
use vstd::arithmetic::div_mod::lemma_fundamental_div_mod;
use vstd::arithmetic::div_mod::lemma_fundamental_div_mod_converse;
use vstd::arithmetic::power2::lemma2_to64;
use vstd::arithmetic::power2::lemma_pow2_adds;
use vstd::arithmetic::power2::lemma_pow2_pos;
use vstd::arithmetic::power2::pow2;
use vstd::prelude::*;
use vstd::string::*;

verus! {

/// The number of tenths nearest to the absolute value of a finite number; of two equally near,
/// the even one.
pub open spec fn nearest_tenths(x: Single) -> nat {
    crate::rounding::half_even(10 * x.units(), pow2(149))
}

/// A number of tenths with its decimal point.
pub open spec fn with_point(tenths: nat) -> Seq<char> {
    crate::text::decimal(tenths / 10).push('.') + crate::text::decimal(tenths % 10)
}

/// A number with one decimal.
pub open spec fn one_decimal(x: Single) -> Seq<char> {
    if x.is_nan() {
        "NaN"@
    } else {
        let sign = if x.negative() {
            "-"@
        } else {
            ""@
        };
        if x.is_infinite() {
            sign + "inf"@
        } else {
            sign + with_point(nearest_tenths(x))
        }
    }
}

/// A common factor does not matter for rounding.
proof fn lemma_half_even_scaled(num: nat, den: nat, c: nat)
    requires
        den > 0,
        c > 0,
    ensures
        crate::rounding::half_even(num * c, den * c) == crate::rounding::half_even(num, den),
{
    let q = num / den;
    let r = num % den;
    lemma_fundamental_div_mod(num as int, den as int);
    assert(num * c == q * (den * c) + r * c) by (nonlinear_arith)
        requires
            num == den * q + r,
    ;
    assert(0 <= r * c < den * c) by (nonlinear_arith)
        requires
            0 <= r < den,
            c > 0,
    ;
    lemma_fundamental_div_mod_converse(
        (num * c) as int,
        (den * c) as int,
        q as int,
        (r * c) as int,
    );
    assert(2 * (r * c) < den * c <==> 2 * r < den) by (nonlinear_arith)
        requires
            c > 0,
    ;
    assert(2 * (r * c) > den * c <==> 2 * r > den) by (nonlinear_arith)
        requires
            c > 0,
    ;
}

/// A whole number of steps above the unit has no decimals.
proof fn lemma_whole_tenths(m: nat, shift: nat)
    requires
        shift >= 149,
    ensures
        crate::rounding::half_even(10 * (m * pow2(shift)), pow2(149)) == 10 * (m * pow2(
            (shift - 149) as nat,
        )),
{
    let q = 10 * (m * pow2((shift - 149) as nat));
    lemma_pow2_pos(149);
    lemma_pow2_adds((shift - 149) as nat, 149);
    assert(10 * (m * pow2(shift)) == q * pow2(149)) by (nonlinear_arith)
        requires
            pow2(shift) == pow2((shift - 149) as nat) * pow2(149),
            q == 10 * (m * pow2((shift - 149) as nat)),
    ;
    lemma_fundamental_div_mod_converse(
        (10 * (m * pow2(shift))) as int,
        pow2(149) as int,
        q as int,
        0,
    );
}

/// Steps below the unit.
proof fn lemma_fraction_tenths(m: nat, shift: nat)
    requires
        shift <= 149,
    ensures
        crate::rounding::half_even(10 * (m * pow2(shift)), pow2(149))
            == crate::rounding::half_even(10 * m, pow2((149 - shift) as nat)),
{
    let den = pow2((149 - shift) as nat);
    lemma_pow2_pos(shift);
    lemma_pow2_pos((149 - shift) as nat);
    lemma_pow2_adds((149 - shift) as nat, shift);
    lemma_half_even_scaled(10 * m, den, pow2(shift));
    assert((10 * m) * pow2(shift) == 10 * (m * pow2(shift))) by (nonlinear_arith);
}

/// The tenths of `10 * m / 2^t`.
fn tenths_below(m: u32, t: u32) -> (r: u64)
    requires
        m < 0x100_0000,
        1 <= t <= 149,
    ensures
        r == crate::rounding::half_even((10 * m) as nat, pow2(t as nat)),
{
    proof {
        lemma_pow2_pos(t as nat);
        lemma2_to64();
    }
    let num: u64 = 10 * (m as u64);
    if t >= 30 {
        proof {
            lemma_pow2_adds(30, (t - 30) as nat);
            lemma_pow2_pos((t - 30) as nat);
            assert(pow2(t as nat) >= 0x4000_0000) by (nonlinear_arith)
                requires
                    pow2(t as nat) == 0x4000_0000 * pow2((t - 30) as nat),
                    pow2((t - 30) as nat) >= 1,
            ;
            lemma_fundamental_div_mod_converse(num as int, pow2(t as nat) as int, 0, num as int);
        }
        return 0;
    }
    proof {
        crate::rounding::lemma_pow2_monotonic(t as nat, 29);
    }
    let den: u64 = power_of_two(t) as u64;
    let q: u64 = num / den;
    let r: u64 = num % den;
    if 2 * r < den {
        q
    } else if 2 * r > den {
        q + 1
    } else {
        q + q % 2
    }
}

/// Writes a number with one decimal.
pub fn one_decimal_text(x: Single) -> (r: String)
    ensures
        r@ == one_decimal(x),
{
    if x.not_a_number() {
        return "NaN".to_owned();
    }
    let mut out = if x.sign() {
        "-".to_owned()
    } else {
        "".to_owned()
    };
    if !x.finite() {
        out.append("inf");
        return out;
    }
    let (m, shift) = x.parts();
    let ghost sign = out@;
    if shift >= 149 {
        let p = power_of_two(shift - 149);
        proof {
            lemma_whole_tenths(m as nat, shift as nat);
            crate::rounding::lemma_pow2_monotonic((shift - 149) as nat, 104);
            lemma2_to64();
            lemma_pow2_adds(40, 64);
            vstd::arithmetic::power2::lemma2_to64_rest();
            assert(m * p < 0x1_0000_0000_0000_0000_0000_0000_0000_0000) by (nonlinear_arith)
                requires
                    m < 0x100_0000,
                    p <= 0x100_0000_0000_0000_0000_0000_0000,
            ;
        }
        let whole = wide_decimal_text(m as u128 * p);
        out.append(whole.as_str());
        out.push('.');
        out.push('0');
        proof {
            let n = nearest_tenths(x);
            assert(n / 10 == m * p && n % 10 == 0);
            assert(crate::text::decimal(0) == seq!['0']);
            assert(out@ == sign + with_point(n));
        }
    } else {
        let n = tenths_below(m, 149 - shift);
        proof {
            lemma_fraction_tenths(m as nat, shift as nat);
        }
        let whole = wide_decimal_text((n / 10) as u128);
        out.append(whole.as_str());
        out.push('.');
        let tenth = wide_decimal_text((n % 10) as u128);
        out.append(tenth.as_str());
        assert(out@ == sign + with_point(n as nat));
    }
    out
}

/// A raw value of two bytes is shown as its tenths.
pub proof fn law_tenths_are_shown(n: nat)
    requires
        n <= 0xffff,
    ensures
        nearest_tenths(crate::utils::of_tenths(n)) == n,
        one_decimal(crate::utils::of_tenths(n)) == ""@ + with_point(n),
{
    let x = crate::utils::of_tenths(n);
    crate::utils::lemma_of_tenths_error(n);
    lemma2_to64();
    lemma_pow2_pos(137);
    lemma_pow2_adds(12, 137);
    let u = pow2(149);
    let a = 10 * x.units();
    if a >= n * u {
        lemma_fundamental_div_mod_converse(a as int, u as int, n as int, a - n * u);
    } else {
        assert(n * u == (n - 1) * u + u) by (nonlinear_arith);
        lemma_fundamental_div_mod_converse(a as int, u as int, n - 1, a - (n - 1) * u);
    }
}

/// A number is shown with its sign, as a whole number of tenths with a point before the last
/// digit, and that number is at most half a tenth off; of two that are, it is the even one.
pub proof fn law_shown(x: Single, r: String) -> (n: nat)
    requires
        call_ensures(one_decimal_text, (x,), r),
        x.is_finite(),
    ensures
        ({
            let shown = crate::text::decimal(n / 10) + seq!['.'] + crate::text::decimal(n % 10);
            let size = if x.negative() {
                -x.signed_units()
            } else {
                x.signed_units()
            };
            &&& r@ == if x.negative() {
                seq!['-'] + shown
            } else {
                shown
            }
            &&& -pow2(149) <= 2 * (n * pow2(149) - 10 * size) <= pow2(149)
            &&& n % 2 == 1 ==> -pow2(149) < 2 * (n * pow2(149) - 10 * size) < pow2(149)
        }),
{
    let n = nearest_tenths(x);
    let num = 10 * x.units();
    let u = pow2(149);
    lemma_pow2_pos(149);
    lemma_fundamental_div_mod(num as int, u as int);
    vstd::arithmetic::mul::lemma_mul_is_commutative(u as int, (num / u) as int);
    vstd::arithmetic::mul::lemma_mul_is_distributive_add_other_way(u as int, (num / u) as int, 1);
    assert(n == num / u || n == num / u + 1);
    reveal_strlit("-");
    reveal_strlit("");
    assert("-"@ == seq!['-']);
    assert(""@ == Seq::<char>::empty());
    assert(with_point(n) == crate::text::decimal(n / 10) + seq!['.'] + crate::text::decimal(n % 10));
    n
}

/// What is no finite number is called by its name.
pub proof fn law_shown_names(x: Single, r: String)
    requires
        call_ensures(one_decimal_text, (x,), r),
        !x.is_finite(),
    ensures
        x.is_nan() ==> r@ == "NaN"@,
        !x.is_nan() && !x.negative() ==> r@ == "inf"@,
        !x.is_nan() && x.negative() ==> r@ == "-inf"@,
{
    reveal_strlit("-");
    reveal_strlit("");
    reveal_strlit("inf");
    reveal_strlit("-inf");
    assert(""@ + "inf"@ == "inf"@);
    assert("-"@ + "inf"@ == "-inf"@);
}

} // verus!
