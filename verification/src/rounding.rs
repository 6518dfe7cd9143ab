//! Rounding of exact rational numbers to the 24 significant bits of an IEEE single.
//!
//! Magnitudes are counted in units of 2^-149, the distance between the smallest single
//! and zero, so that every finite single is a whole number of units.
use vstd::arithmetic::div_mod::lemma_fundamental_div_mod;
use vstd::arithmetic::div_mod::lemma_fundamental_div_mod_converse;
use vstd::arithmetic::power2::lemma2_to64;
use vstd::arithmetic::power2::lemma_pow2_adds;
use vstd::arithmetic::power2::lemma_pow2_pos;
use vstd::arithmetic::power2::lemma_pow2_strictly_increases;
use vstd::arithmetic::power2::lemma_pow2_unfold;
use vstd::arithmetic::power2::pow2;
use vstd::prelude::*;

verus! {

/// Number of binary digits of `n`; zero has none.
pub open spec fn bit_len(n: nat) -> nat
    decreases n,
{
    if n == 0 {
        0
    } else {
        1 + bit_len(n / 2)
    }
}

/// How many low digits of `n` do not fit in the 24 digits that a single keeps.
pub open spec fn excess_bits(n: nat) -> nat {
    if bit_len(n) <= 24 {
        0
    } else {
        (bit_len(n) - 24) as nat
    }
}

/// The integer nearest to `num / den`; of two equally near, the even one.
pub open spec fn half_even(num: nat, den: nat) -> nat {
    let q = num / den;
    let r = num % den;
    if 2 * r < den {
        q
    } else if 2 * r > den {
        q + 1
    } else {
        q + q % 2
    }
}

/// The pattern of infinity, without its sign.
pub const INFINITY_MAGNITUDE: u32 = 0x7f80_0000;

/// Exponent and fraction of the single nearest to `num / den` units.
///
/// The digits that are kept, counted in steps of `2^k` units, sit `k` exponent steps above
/// the bottom of the format; a carry out of the digits moves into the exponent by itself.
pub open spec fn round_magnitude(num: nat, den: nat) -> nat {
    let k = excess_bits(num / den);
    let m = k * 0x80_0000 + half_even(num, den * pow2(k));
    if m < INFINITY_MAGNITUDE {
        m
    } else {
        INFINITY_MAGNITUDE as nat
    }
}

/// `m` steps of `2^(b - a)` units is the exact quantity `num / den` or, where digits
/// below the last step were dropped, the step just below it.
pub open spec fn approximates(
    num: nat,
    den: nat,
    m: nat,
    sticky: bool,
    a: nat,
    b: nat,
) -> bool {
    let x = num * pow2(a);
    let t = den * pow2(b);
    if sticky {
        m * t < x < (m + 1) * t
    } else {
        x == m * t
    }
}

pub proof fn lemma_bit_len_bounds(n: nat)
    requires
        n > 0,
    ensures
        bit_len(n) >= 1,
        pow2((bit_len(n) - 1) as nat) <= n < pow2(bit_len(n)),
    decreases n,
{
    lemma2_to64();
    if n == 1 {
        assert(bit_len(0) == 0);
        assert(bit_len(1) == 1);
    } else {
        lemma_bit_len_bounds(n / 2);
        lemma_pow2_unfold(bit_len(n));
        lemma_pow2_unfold((bit_len(n) - 1) as nat);
    }
}

pub proof fn lemma_pow2_monotonic(i: nat, j: nat)
    requires
        i <= j,
    ensures
        pow2(i) <= pow2(j),
{
    if i < j {
        lemma_pow2_strictly_increases(i, j);
    }
}

/// The number of digits is fixed by the powers of two around `n`.
pub proof fn lemma_bit_len_is(n: nat, len: nat)
    requires
        len >= 1,
        pow2((len - 1) as nat) <= n < pow2(len),
    ensures
        bit_len(n) == len,
{
    lemma_pow2_pos((len - 1) as nat);
    lemma_bit_len_bounds(n);
    if bit_len(n) < len {
        lemma_pow2_monotonic(bit_len(n), (len - 1) as nat);
    }
    if bit_len(n) > len {
        lemma_pow2_monotonic(len, (bit_len(n) - 1) as nat);
    }
}

/// A number below `2^len` has at most `len` digits.
pub proof fn lemma_bit_len_at_most(n: nat, len: nat)
    requires
        n < pow2(len),
    ensures
        bit_len(n) <= len,
{
    if n > 0 {
        lemma_bit_len_bounds(n);
        if bit_len(n) > len {
            lemma_pow2_monotonic(len, (bit_len(n) - 1) as nat);
        }
    }
}

/// Quotient and remainder are fixed by the multiple of `den` just below `num`.
proof fn lemma_half_even_at(num: nat, den: nat, q: nat)
    requires
        den > 0,
        q * den <= num < (q + 1) * den,
    ensures
        num / den == q,
        num % den == num - q * den,
{
    assert((q + 1) * den == q * den + den) by (nonlinear_arith);
    lemma_fundamental_div_mod_converse(num as int, den as int, q as int, num - q * den);
}

/// Digits dropped by the rounding depend only on the size of the leading steps.
proof fn lemma_excess_bits(num: nat, den: nat, m: nat, sticky: bool, a: nat, b: nat)
    requires
        den > 0,
        m > 0,
        approximates(num, den, m, sticky, a, b),
    ensures
        bit_len(m) + b - a <= 24 ==> excess_bits(num / den) == 0,
        bit_len(m) + b - a > 24 ==> excess_bits(num / den) == bit_len(m) + b - a - 24,
{
    let len = bit_len(m);
    let bl = len + b - a;
    let x = num * pow2(a);
    let t = den * pow2(b);
    let n = num / den;
    lemma_bit_len_bounds(m);
    lemma_pow2_pos(a);
    lemma_pow2_pos(b);
    lemma_fundamental_div_mod(num as int, den as int);
    assert(t > 0) by (nonlinear_arith)
        requires
            den > 0,
            pow2(b) > 0,
            t == den * pow2(b),
    ;
    // x < 2^len * t and 2^(len - 1) * t <= x
    assert((m + 1) * t == m * t + t) by (nonlinear_arith);
    assert(m * t <= x < (m + 1) * t);
    assert((m + 1) * t <= pow2(len) * t) by (nonlinear_arith)
        requires
            m + 1 <= pow2(len),
            t > 0,
    ;
    assert(pow2((len - 1) as nat) * t <= m * t) by (nonlinear_arith)
        requires
            pow2((len - 1) as nat) <= m,
            t > 0,
    ;
    lemma_pow2_adds(len, b);
    assert(pow2(len) * t == den * pow2((len + b) as nat)) by (nonlinear_arith)
        requires
            t == den * pow2(b),
            pow2(len) * pow2(b) == pow2((len + b) as nat),
    ;
    lemma_pow2_adds((len - 1) as nat, b);
    assert(pow2((len - 1) as nat) * t == den * pow2((len - 1 + b) as nat)) by (nonlinear_arith)
        requires
            t == den * pow2(b),
            pow2((len - 1) as nat) * pow2(b) == pow2((len - 1 + b) as nat),
    ;
    if bl >= 1 {
        lemma_pow2_adds(bl as nat, a);
        lemma_pow2_adds((bl - 1) as nat, a);
        assert(num < den * pow2(bl as nat)) by (nonlinear_arith)
            requires
                num * pow2(a) < den * (pow2(bl as nat) * pow2(a)),
                pow2(a) > 0,
        ;
        assert(den * pow2((bl - 1) as nat) <= num) by (nonlinear_arith)
            requires
                den * (pow2((bl - 1) as nat) * pow2(a)) <= num * pow2(a),
                pow2(a) > 0,
        ;
        assert(n < pow2(bl as nat)) by (nonlinear_arith)
            requires
                num == den * n + num % den,
                num % den >= 0,
                num < den * pow2(bl as nat),
                den > 0,
        ;
        assert(pow2((bl - 1) as nat) <= n) by (nonlinear_arith)
            requires
                num == den * n + num % den,
                num % den < den,
                den * pow2((bl - 1) as nat) <= num,
                den > 0,
        ;
        lemma_bit_len_is(n, bl as nat);
    } else {
        lemma_pow2_monotonic((len + b) as nat, a);
        assert(num < den) by (nonlinear_arith)
            requires
                num * pow2(a) < den * pow2((len + b) as nat),
                pow2((len + b) as nat) <= pow2(a),
                pow2(a) > 0,
                den > 0,
        ;
        assert(n == 0) by (nonlinear_arith)
            requires
                num == den * n + num % den,
                num % den >= 0,
                num < den,
                den > 0,
        ;
        assert(bit_len(0) == 0);
    }
}

/// Rounding at `2^k` units, where the last kept digit is worth `2^s` steps.
proof fn lemma_round_right(
    num: nat,
    den: nat,
    m: nat,
    sticky: bool,
    a: nat,
    b: nat,
    k: nat,
    s: nat,
)
    requires
        den > 0,
        s >= 1,
        k + a == s + b,
        approximates(num, den, m, sticky, a, b),
    ensures
        ({
            let q = m / pow2(s);
            let r = m % pow2(s);
            let half = pow2((s - 1) as nat);
            half_even(num, den * pow2(k)) == if r > half || (r == half && sticky) {
                q + 1
            } else if r == half {
                q + q % 2
            } else {
                q
            }
        }),
{
    let p = pow2(s);
    let half = pow2((s - 1) as nat);
    let q = m / p;
    let r = m % p;
    let d = den * pow2(k);
    let aa = pow2(a);
    let x = num * aa;
    let t = den * pow2(b);
    lemma_pow2_pos(s);
    lemma_pow2_pos(a);
    lemma_pow2_pos(b);
    lemma_pow2_pos(k);
    lemma_pow2_unfold(s);
    lemma_fundamental_div_mod(m as int, p as int);
    lemma_pow2_adds(k, a);
    lemma_pow2_adds(s, b);
    assert(d > 0) by (nonlinear_arith)
        requires
            den > 0,
            pow2(k) > 0,
            d == den * pow2(k),
    ;
    assert(t > 0) by (nonlinear_arith)
        requires
            den > 0,
            pow2(b) > 0,
            t == den * pow2(b),
    ;
    assert(d * aa == p * t) by (nonlinear_arith)
        requires
            d == den * pow2(k),
            t == den * pow2(b),
            pow2(k) * aa == p * pow2(b),
    ;
    let delta = x - m * t;
    assert((m + 1) * t == m * t + t) by (nonlinear_arith);
    assert(0 <= delta < t);
    assert(sticky <==> delta > 0);
    assert(m * t == q * (p * t) + r * t) by (nonlinear_arith)
        requires
            m == p * q + r,
    ;
    let rest = num - q * d;
    assert(rest * aa == r * t + delta) by (nonlinear_arith)
        requires
            rest == num - q * d,
            num * aa == q * (p * t) + r * t + delta,
            d * aa == p * t,
    ;
    assert(r * t >= 0) by (nonlinear_arith)
        requires
            r >= 0,
            t > 0,
    ;
    assert((r + 1) * t <= p * t) by (nonlinear_arith)
        requires
            r + 1 <= p,
            t > 0,
    ;
    assert((r + 1) * t == r * t + t) by (nonlinear_arith);
    assert(rest >= 0) by (nonlinear_arith)
        requires
            rest * aa >= 0,
            aa > 0,
    ;
    assert(rest < d) by (nonlinear_arith)
        requires
            rest * aa < d * aa,
            aa > 0,
    ;
    assert((q + 1) * d == q * d + d) by (nonlinear_arith);
    lemma_half_even_at(num, d, q);
    // 2 * rest against d is 2 * (r * t + delta) against 2 * half * t.
    assert(d * aa == 2 * (half * t)) by (nonlinear_arith)
        requires
            d * aa == p * t,
            p == 2 * half,
    ;
    if r > half || (r == half && sticky) {
        assert(r * t + delta > half * t) by (nonlinear_arith)
            requires
                r > half || (r == half && delta > 0),
                delta >= 0,
                t > 0,
        ;
        assert(2 * rest > d) by (nonlinear_arith)
            requires
                2 * (rest * aa) > d * aa,
                aa > 0,
        ;
    } else if r == half {
        assert(2 * rest == d) by (nonlinear_arith)
            requires
                2 * (rest * aa) == d * aa,
                aa > 0,
        ;
    } else {
        assert((r + 1) * t <= half * t) by (nonlinear_arith)
            requires
                r + 1 <= half,
                t > 0,
        ;
        assert(2 * rest < d) by (nonlinear_arith)
            requires
                2 * (rest * aa) < d * aa,
                aa > 0,
        ;
    }
}

/// Rounding at `2^k` units, where that is at most one step: nothing is lost.
proof fn lemma_round_left(num: nat, den: nat, m: nat, a: nat, b: nat, k: nat, s: nat)
    requires
        den > 0,
        k + a + s == b,
        approximates(num, den, m, false, a, b),
    ensures
        half_even(num, den * pow2(k)) == m * pow2(s),
{
    let d = den * pow2(k);
    let c = m * pow2(s);
    lemma_pow2_pos(k);
    lemma_pow2_pos(a);
    assert(d > 0) by (nonlinear_arith)
        requires
            den > 0,
            pow2(k) > 0,
            d == den * pow2(k),
    ;
    lemma_pow2_adds(k, a);
    lemma_pow2_adds((k + a) as nat, s);
    assert(num == c * d) by (nonlinear_arith)
        requires
            num * pow2(a) == m * (den * pow2(b)),
            pow2(b) == (pow2(k) * pow2(a)) * pow2(s),
            c == m * pow2(s),
            d == den * pow2(k),
            pow2(a) > 0,
    ;
    assert((c + 1) * d == c * d + d) by (nonlinear_arith);
    lemma_half_even_at(num, d, c);
}

/// A fraction that is a whole number rounds as that number does.
pub proof fn lemma_cancel(n: nat, den: nat)
    requires
        den > 0,
    ensures
        round_magnitude(n * den, den) == round_magnitude(n, 1),
{
    lemma_fundamental_div_mod_converse((n * den) as int, den as int, n as int, 0);
    let k = excess_bits(n);
    let p = pow2(k);
    lemma_pow2_pos(k);
    lemma_fundamental_div_mod(n as int, p as int);
    let q = n / p;
    let r = n % p;
    assert(q * (den * p) + r * den == n * den) by (nonlinear_arith)
        requires
            n == p * q + r,
    ;
    assert(0 <= r * den < den * p) by (nonlinear_arith)
        requires
            0 <= r < p,
            den > 0,
    ;
    lemma_fundamental_div_mod_converse(
        (n * den) as int,
        (den * p) as int,
        q as int,
        (r * den) as int,
    );
    assert(2 * (r * den) < den * p <==> 2 * r < p) by (nonlinear_arith)
        requires
            den > 0,
    ;
    assert(2 * (r * den) > den * p <==> 2 * r > p) by (nonlinear_arith)
        requires
            den > 0,
    ;
    assert(n / 1 == n);
    assert(1 * p == p);
}

/// A number of at most 24 digits, the top one set unless nothing lies below it, is kept.
pub proof fn lemma_exact_steps(m: nat, shift: nat)
    requires
        m < 0x100_0000,
        shift > 0 ==> m >= 0x80_0000,
        shift <= 253,
    ensures
        round_magnitude(m * pow2(shift), 1) == shift * 0x80_0000 + m,
{
    let num = m * pow2(shift);
    lemma2_to64();
    if m > 0 {
        assert(num * pow2(0) == m * (1 * pow2(shift))) by (nonlinear_arith)
            requires
                num == m * pow2(shift),
                pow2(0) == 1,
        ;
        lemma_excess_bits(num, 1, m, false, 0, shift);
        lemma_bit_len_at_most(m, 24);
        if shift > 0 {
            lemma_bit_len_is(m, 24);
        }
        lemma_round_left(num, 1, m, 0, shift, shift, 0);
        assert(m * pow2(0) == m);
    } else {
        assert(num == 0) by (nonlinear_arith)
            requires
                num == m * pow2(shift),
                m == 0,
        ;
        assert(bit_len(0) == 0);
    }
}

/// Number of binary digits of `m`.
fn bit_length(m: u128) -> (len: u32)
    ensures
        len == bit_len(m as nat),
        len <= 128,
{
    let mut rest: u128 = m;
    let mut len: u32 = 0;
    proof {
        lemma_pow2_u128();
        lemma_bit_len_at_most(m as nat, 128);
    }
    while rest > 0
        invariant
            len + bit_len(rest as nat) == bit_len(m as nat),
            bit_len(m as nat) <= 128,
        decreases rest,
    {
        assert(bit_len(rest as nat) == 1 + bit_len(rest as nat / 2));
        rest = rest / 2;
        len = len + 1;
    }
    len
}

proof fn lemma_pow2_u128()
    ensures
        pow2(64) == 0x1_0000_0000_0000_0000,
        pow2(128) == u128::MAX + 1,
{
    lemma2_to64();
    lemma_pow2_adds(64, 64);
    assert(0x1_0000_0000_0000_0000 * 0x1_0000_0000_0000_0000
        == 0x1_0000_0000_0000_0000_0000_0000_0000_0000) by (nonlinear_arith);
}

/// Two to the power `e`.
pub(crate) fn power_of_two(e: u32) -> (p: u128)
    requires
        e < 128,
    ensures
        p == pow2(e as nat),
        p > 0,
{
    proof {
        lemma_pow2_u128();
        lemma2_to64();
    }
    let mut p: u128 = 1;
    let mut i: u32 = 0;
    while i < e
        invariant
            i <= e < 128,
            p == pow2(i as nat),
            pow2(128) == u128::MAX + 1,
        decreases e - i,
    {
        proof {
            lemma_pow2_unfold((i + 1) as nat);
            lemma_pow2_monotonic((i + 1) as nat, 127);
            lemma_pow2_unfold(128);
        }
        p = p * 2;
        i = i + 1;
    }
    proof {
        lemma_pow2_pos(e as nat);
    }
    p
}

/// Rounds `m` steps of `2^e` units to a single and gives exponent and fraction.
///
/// `sticky` says that the exact quantity lies above `m` steps, by less than one step.
pub(crate) fn round_steps(
    m: u128,
    sticky: bool,
    e: i32,
    Ghost(num): Ghost<nat>,
    Ghost(den): Ghost<nat>,
    Ghost(a): Ghost<nat>,
    Ghost(b): Ghost<nat>,
) -> (r: u32)
    requires
        den > 0,
        e == b - a,
        -2000 <= e <= 2000,
        sticky ==> bit_len(m as nat) >= 25,
        approximates(num, den, m as nat, sticky, a, b),
    ensures
        r == round_magnitude(num, den),
        r <= INFINITY_MAGNITUDE,
{
    if m == 0 {
        proof {
            lemma_pow2_pos(a);
            assert(num == 0) by (nonlinear_arith)
                requires
                    num * pow2(a) == 0 * (den * pow2(b)),
                    pow2(a) > 0,
            ;
            lemma_fundamental_div_mod_converse(0, den as int, 0, 0);
            assert(bit_len(0) == 0);
            lemma_pow2_pos(0);
            assert(den * pow2(0) > 0) by (nonlinear_arith)
                requires
                    den > 0,
                    pow2(0) > 0,
            ;
            lemma_fundamental_div_mod_converse(0, (den * pow2(0)) as int, 0, 0);
        }
        return 0;
    }
    let len: i32 = bit_length(m) as i32;
    proof {
        lemma_excess_bits(num, den, m as nat, sticky, a, b);
        lemma_bit_len_bounds(m as nat);
    }
    let k: i32 = if len + e > 24 {
        len + e - 24
    } else {
        0
    };
    assert(k == excess_bits(num / den));
    if k >= 255 {
        return INFINITY_MAGNITUDE;
    }
    let s: i32 = k - e;
    let digits: u128 = if s <= 0 {
        let p = power_of_two((-s) as u32);
        proof {
            lemma_round_left(num, den, m as nat, a, b, k as nat, (-s) as nat);
            lemma_pow2_adds(len as nat, (-s) as nat);
            lemma_pow2_monotonic((len - s) as nat, 24);
            lemma2_to64();
            assert(m * p < 0x100_0000) by (nonlinear_arith)
                requires
                    m < pow2(len as nat),
                    p > 0,
                    pow2(len as nat) * p <= 0x100_0000,
            ;
        }
        m * p
    } else if s > len {
        proof {
            lemma_round_right(num, den, m as nat, sticky, a, b, k as nat, s as nat);
            lemma_pow2_monotonic(len as nat, (s - 1) as nat);
            lemma_pow2_strictly_increases(len as nat, s as nat);
            lemma_fundamental_div_mod_converse(m as int, pow2(s as nat) as int, 0, m as int);
        }
        0
    } else {
        let half = power_of_two((s - 1) as u32);
        proof {
            lemma_round_right(num, den, m as nat, sticky, a, b, k as nat, s as nat);
            lemma_pow2_unfold(s as nat);
            lemma_pow2_u128();
            lemma_pow2_monotonic(s as nat, 128);
            if s == 128 {
                // 2^128 is one more than a `u128` holds.
                lemma_fundamental_div_mod_converse(m as int, pow2(128) as int, 0, m as int);
            }
        }
        // Split off the digits below the last kept one without forming 2^s itself.
        let twice: u128 = m / half;
        let below: u128 = m % half;
        let q: u128 = twice / 2;
        proof {
            lemma_fundamental_div_mod(m as int, half as int);
            let r = below + (twice % 2) * half;
            assert(0 <= r < pow2(s as nat)) by (nonlinear_arith)
                requires
                    r == below + (twice % 2) * half,
                    0 <= below < half,
                    0 <= twice % 2 <= 1,
                    pow2(s as nat) == 2 * half,
            ;
            assert(m == q * pow2(s as nat) + r) by (nonlinear_arith)
                requires
                    m == half * twice + below,
                    twice == 2 * q + twice % 2,
                    r == below + (twice % 2) * half,
                    pow2(s as nat) == 2 * half,
            ;
            lemma_fundamental_div_mod_converse(m as int, pow2(s as nat) as int, q as int, r as int);
            lemma_pow2_adds(24, s as nat);
            lemma_pow2_monotonic(len as nat, (24 + s) as nat);
            lemma2_to64();
            assert(q < 0x100_0000) by (nonlinear_arith)
                requires
                    m == q * pow2(s as nat) + r,
                    r >= 0,
                    m < 0x100_0000 * pow2(s as nat),
                    pow2(s as nat) > 0,
            ;
            if twice % 2 == 0 {
                assert(r == below) by (nonlinear_arith)
                    requires
                        r == below + (twice % 2) * half,
                        twice % 2 == 0,
                ;
            } else {
                assert(r == below + half) by (nonlinear_arith)
                    requires
                        r == below + (twice % 2) * half,
                        twice % 2 == 1,
                ;
            }
        }
        if twice % 2 == 0 {
            q
        } else if below > 0 || sticky {
            q + 1
        } else {
            q + q % 2
        }
    };
    assert(digits == half_even(num, den * pow2(k as nat)));
    assert(digits <= 0x100_0000);
    let magnitude: u32 = (k as u32) * 0x80_0000 + digits as u32;
    if magnitude < INFINITY_MAGNITUDE {
        magnitude
    } else {
        INFINITY_MAGNITUDE
    }
}

} // verus!
