//! Conversions between temperatures and the bytes that the devices exchange.
use crate::error::Detail;
use crate::error::StorzError;
use crate::single::Single;
use crate::text::decimal_text;
use vstd::arithmetic::power2::lemma2_to64;
use vstd::arithmetic::power2::lemma_pow2_adds;
use vstd::arithmetic::power2::lemma_pow2_pos;
use vstd::arithmetic::power2::pow2;
use vstd::prelude::*;
use vstd::string::*;

verus! {

/// Minimum valid temperature in Celsius: 40, as the bits of a single.
pub const TEMP_MIN: u32 = 0x4220_0000;

/// Maximum valid temperature in Celsius: 230, as the bits of a single.
pub const TEMP_MAX: u32 = 0x4366_0000;

/// Steps to a degree: 10, as the bits of a single.
pub const STEPS_PER_DEGREE: u32 = 0x4120_0000;

/// Degrees Fahrenheit to a degree Celsius: 1.8, as the bits of a single.
pub const FAHRENHEIT_SCALE: u32 = 0x3fe6_6666;

/// Zero degrees Celsius in Fahrenheit: 32, as the bits of a single.
pub const FAHRENHEIT_OFFSET: u32 = 0x4200_0000;

/// The number in a little-endian run of bytes.
pub open spec fn little_endian(bytes: Seq<u8>) -> nat
    decreases bytes.len(),
{
    if bytes.len() == 0 {
        0
    } else {
        bytes[0] as nat + 256 * little_endian(bytes.skip(1))
    }
}

/// The bytes of a number, low byte first.
pub open spec fn le_seq(n: nat, width: nat) -> Seq<u8>
    decreases width,
{
    if width == 0 {
        seq![]
    } else {
        seq![(n % 256) as u8] + le_seq(n / 256, (width - 1) as nat)
    }
}

/// A temperature that the devices accept.
pub open spec fn in_range(celsius: Single) -> bool {
    Single { bits: TEMP_MIN }.le(celsius) && celsius.le(Single { bits: TEMP_MAX })
}

/// The temperature in tenths of a degree, as a whole number of at most `max`.
pub open spec fn tenths(celsius: Single, max: nat) -> nat {
    celsius.product(Single { bits: STEPS_PER_DEGREE }).saturated(max)
}

/// The temperature of a number of tenths.
pub open spec fn of_tenths(raw: nat) -> Single {
    crate::single::whole(raw).quotient(Single { bits: STEPS_PER_DEGREE })
}

/// The error of an answer that is too short.
pub open spec fn too_short(expected: Seq<char>, len: nat) -> crate::error::Failure {
    crate::error::unparsed(expected + crate::text::decimal(len))
}

/// The two bytes of a number, low byte first.
pub fn le_bytes_u16(n: u16) -> (r: [u8; 2])
    ensures
        r@ == le_seq(n as nat, 2),
        little_endian(r@) == n,
{
    let r: [u8; 2] = [(n % 256) as u8, (n / 256) as u8];
    proof {
        reveal_with_fuel(le_seq, 3);
        reveal_with_fuel(little_endian, 3);
        assert(r@.skip(1) == seq![r@[1]]);
        assert(r@.skip(1).skip(1) == Seq::<u8>::empty());
    }
    r
}

/// The four bytes of a number, low byte first.
pub fn le_bytes_u32(n: u32) -> (r: [u8; 4])
    ensures
        r@ == le_seq(n as nat, 4),
        little_endian(r@) == n,
{
    let r: [u8; 4] = [
        (n % 256) as u8,
        (n / 0x100 % 256) as u8,
        (n / 0x1_0000 % 256) as u8,
        (n / 0x100_0000) as u8,
    ];
    proof {
        reveal_with_fuel(le_seq, 5);
        assert(n / 0x100 / 0x100 == n / 0x1_0000);
        assert(n / 0x1_0000 / 0x100 == n / 0x100_0000);
        reveal_with_fuel(little_endian, 5);
        assert(r@.skip(1) == seq![r@[1], r@[2], r@[3]]);
        assert(r@.skip(1).skip(1) == seq![r@[2], r@[3]]);
        assert(r@.skip(1).skip(1).skip(1) == seq![r@[3]]);
        assert(r@.skip(1).skip(1).skip(1).skip(1) == Seq::<u8>::empty());
    }
    r
}

/// The number in two bytes, low byte first.
pub fn u16_at(bytes: &[u8], from: usize) -> (r: u16)
    requires
        from + 2 <= bytes@.len(),
    ensures
        r == little_endian(bytes@.subrange(from as int, from + 2)),
{
    proof {
        let s = bytes@.subrange(from as int, from + 2);
        reveal_with_fuel(little_endian, 3);
        assert(s.skip(1) == seq![s[1]]);
        assert(s.skip(1).skip(1) == Seq::<u8>::empty());
    }
    bytes[from] as u16 + bytes[from + 1] as u16 * 256
}

/// The number in three bytes, low byte first.
pub fn u24_at(bytes: &[u8], from: usize) -> (r: u32)
    requires
        from + 3 <= bytes@.len(),
    ensures
        r == little_endian(bytes@.subrange(from as int, from + 3)),
{
    proof {
        let s = bytes@.subrange(from as int, from + 3);
        reveal_with_fuel(little_endian, 4);
        assert(s.skip(1) == seq![s[1], s[2]]);
        assert(s.skip(1).skip(1) == seq![s[2]]);
        assert(s.skip(1).skip(1).skip(1) == Seq::<u8>::empty());
    }
    bytes[from] as u32 + bytes[from + 1] as u32 * 256 + bytes[from + 2] as u32 * 65536
}

/// The number in the first four bytes, low byte first.
fn u32_at_start(bytes: &[u8]) -> (r: u32)
    requires
        4 <= bytes@.len(),
    ensures
        r == little_endian(bytes@.take(4)),
{
    proof {
        let s = bytes@.take(4);
        reveal_with_fuel(little_endian, 5);
        assert(s.skip(1) == seq![s[1], s[2], s[3]]);
        assert(s.skip(1).skip(1) == seq![s[2], s[3]]);
        assert(s.skip(1).skip(1).skip(1) == seq![s[3]]);
        assert(s.skip(1).skip(1).skip(1).skip(1) == Seq::<u8>::empty());
    }
    bytes[0] as u32 + bytes[1] as u32 * 256 + bytes[2] as u32 * 65536 + bytes[3] as u32 * 0x100_0000
}

fn short_answer(expected: &str, len: usize) -> (r: StorzError)
    ensures
        r@ == too_short(expected@, len as nat),
{
    let mut text = expected.to_owned();
    let count = decimal_text(len as u64);
    text.append(count.as_str());
    StorzError::ParseError(Detail::Text(text))
}

/// Whether the devices accept a temperature.
pub fn within_range(celsius: Single) -> (r: bool)
    ensures
        r == in_range(celsius),
{
    Single::from_bits(TEMP_MIN).at_most(celsius) && celsius.at_most(Single::from_bits(TEMP_MAX))
}

/// Convert Celsius to raw BLE bytes (u32 little-endian, value × 10).
pub fn celsius_to_raw_u32(celsius: Single) -> (r: Result<[u8; 4], StorzError>)
    ensures
        r is Ok <==> in_range(celsius),
        r matches Ok(bytes) ==> bytes@ == le_seq(tenths(celsius, u32::MAX as nat), 4),
        r matches Err(e) ==> e@ == crate::error::out_of_range(celsius),
{
    if !within_range(celsius) {
        return Err(StorzError::ParseError(Detail::OutOfRange { celsius }));
    }
    let raw = celsius.times(Single::from_bits(STEPS_PER_DEGREE)).round_saturating(u32::MAX);
    Ok(le_bytes_u32(raw))
}

/// Convert Celsius to raw BLE bytes (u16 little-endian, value × 10).
pub fn celsius_to_raw_u16(celsius: Single) -> (r: Result<[u8; 2], StorzError>)
    ensures
        r is Ok <==> in_range(celsius),
        r matches Ok(bytes) ==> bytes@ == le_seq(tenths(celsius, u16::MAX as nat), 2),
        r matches Err(e) ==> e@ == crate::error::out_of_range(celsius),
{
    if !within_range(celsius) {
        return Err(StorzError::ParseError(Detail::OutOfRange { celsius }));
    }
    Ok(le_bytes_u16(tenths_u16(celsius)))
}

/// The temperature in tenths of a degree, cut off at what two bytes hold.
pub fn tenths_u16(celsius: Single) -> (r: u16)
    ensures
        r == tenths(celsius, u16::MAX as nat),
{
    celsius.times(Single::from_bits(STEPS_PER_DEGREE)).round_saturating(0xffff) as u16
}

/// Parse a u16 little-endian BLE value to Celsius (value ÷ 10).
pub fn raw_to_celsius_u16(bytes: &[u8]) -> (r: Result<Single, StorzError>)
    ensures
        r is Ok <==> bytes@.len() >= 2,
        r matches Ok(celsius) ==> celsius == of_tenths(little_endian(bytes@.take(2))),
        r matches Err(e) ==> e@ == too_short("Expected >= 2 bytes for u16, got "@, bytes@.len()),
{
    if bytes.len() < 2 {
        return Err(short_answer("Expected >= 2 bytes for u16, got ", bytes.len()));
    }
    Ok(celsius_of(u16_at(bytes, 0) as u32))
}

/// Parse a u32 little-endian BLE value to Celsius (value ÷ 10).
pub fn raw_to_celsius_u32(bytes: &[u8]) -> (r: Result<Single, StorzError>)
    ensures
        r is Ok <==> bytes@.len() >= 4,
        r matches Ok(celsius) ==> celsius == of_tenths(little_endian(bytes@.take(4))),
        r matches Err(e) ==> e@ == too_short("Expected >= 4 bytes for u32, got "@, bytes@.len()),
{
    if bytes.len() < 4 {
        return Err(short_answer("Expected >= 4 bytes for u32, got ", bytes.len()));
    }
    Ok(celsius_of(u32_at_start(bytes)))
}

/// The temperature of a number of tenths.
pub fn celsius_of(raw: u32) -> (r: Single)
    ensures
        r == of_tenths(raw as nat),
{
    Single::from_u32(raw).divided_by(Single::from_bits(STEPS_PER_DEGREE))
}

/// Parse a u16 little-endian BLE value (raw, no conversion).
pub fn raw_to_u16(bytes: &[u8]) -> (r: Result<u16, StorzError>)
    ensures
        r is Ok <==> bytes@.len() >= 2,
        r matches Ok(n) ==> n == little_endian(bytes@.take(2)),
        r matches Err(e) ==> e@ == too_short("Expected >= 2 bytes for u16, got "@, bytes@.len()),
{
    if bytes.len() < 2 {
        return Err(short_answer("Expected >= 2 bytes for u16, got ", bytes.len()));
    }
    Ok(u16_at(bytes, 0))
}

/// Parse a u24 little-endian BLE value (3 bytes).
pub fn raw_to_u24(bytes: &[u8]) -> (r: Result<u32, StorzError>)
    ensures
        r is Ok <==> bytes@.len() >= 3,
        r matches Ok(n) ==> n == little_endian(bytes@.take(3)),
        r matches Err(e) ==> e@ == too_short("Expected >= 3 bytes for u24, got "@, bytes@.len()),
{
    if bytes.len() < 3 {
        return Err(short_answer("Expected >= 3 bytes for u24, got ", bytes.len()));
    }
    Ok(u24_at(bytes, 0))
}

/// The temperature in Fahrenheit: 1.8 times the degrees, plus 32.
pub open spec fn fahrenheit(celsius: Single) -> Single {
    celsius.product(Single { bits: FAHRENHEIT_SCALE }).sum(Single { bits: FAHRENHEIT_OFFSET })
}

/// The temperature in Celsius: the degrees less 32, over 1.8.
pub open spec fn celsius(fahrenheit: Single) -> Single {
    fahrenheit.difference(Single { bits: FAHRENHEIT_OFFSET }).quotient(
        Single { bits: FAHRENHEIT_SCALE },
    )
}

/// Convert Celsius to Fahrenheit.
pub fn celsius_to_fahrenheit(celsius: Single) -> (r: Single)
    ensures
        r == fahrenheit(celsius),
{
    celsius.times(Single::from_bits(FAHRENHEIT_SCALE)).plus(Single::from_bits(FAHRENHEIT_OFFSET))
}

/// Convert Fahrenheit to Celsius.
pub fn fahrenheit_to_celsius(fahrenheit: Single) -> (r: Single)
    ensures
        r == celsius(fahrenheit),
{
    fahrenheit.minus(Single::from_bits(FAHRENHEIT_OFFSET)).divided_by(
        Single::from_bits(FAHRENHEIT_SCALE),
    )
}

/// Length of a Venty/Veazy command.
pub const COMMAND_LEN: usize = 20;

/// A command with nothing but its head.
pub open spec fn bare_command(cmd_id: u8, mask: u8) -> Seq<u8> {
    Seq::new(20, |i: int|
        if i == 0 {
            cmd_id
        } else if i == 1 {
            mask
        } else {
            0
        })
}

/// A command with the pairs written into it one after another.
pub open spec fn command(cmd_id: u8, mask: u8, payload: Seq<(usize, u8)>) -> Seq<u8>
    decreases payload.len(),
{
    if payload.len() == 0 {
        bare_command(cmd_id, mask)
    } else {
        let before = command(cmd_id, mask, payload.drop_last());
        let (offset, value) = payload.last();
        if offset < 20 {
            before.update(offset as int, value)
        } else {
            before
        }
    }
}

/// Build a 20-byte Venty/Veazy command buffer.
///
/// `cmd_id` goes in byte[0], `mask` in byte[1], and `payload` is a list of
/// `(offset, value)` pairs to write into the remaining bytes.
pub fn build_venty_command(cmd_id: u8, mask: u8, payload: &[(usize, u8)]) -> (r: [u8; 20])
    ensures
        r@ == command(cmd_id, mask, payload@),
{
    let mut buf: [u8; 20] = [0u8; 20];
    buf[0] = cmd_id;
    buf[1] = mask;
    let mut i: usize = 0;
    assert(payload@.take(0) == Seq::<(usize, u8)>::empty());
    assert(buf@ == bare_command(cmd_id, mask));
    while i < payload.len()
        invariant
            i <= payload@.len(),
            buf@ == command(cmd_id, mask, payload@.take(i as int)),
        decreases payload@.len() - i,
    {
        let (offset, value) = payload[i];
        assert(payload@.take(i + 1).drop_last() == payload@.take(i as int));
        if offset < COMMAND_LEN {
            buf[offset] = value;
        }
        i = i + 1;
    }
    assert(payload@.take(payload@.len() as int) == payload@);
    buf
}

/// Powers of two around one degree, in multiples of `2^137`.
proof fn lemma_degree_powers()
    ensures
        pow2(137) > 0,
        pow2(138) == 2 * pow2(137),
        pow2(141) == 16 * pow2(137),
        pow2(142) == 32 * pow2(137),
        pow2(149) == 0x1000 * pow2(137),
        pow2(150) == 0x2000 * pow2(137),
        pow2(162) == 0x200_0000 * pow2(137),
        pow2(166) == 0x2000_0000 * pow2(137),
{
    lemma_pow2_pos(137);
    lemma2_to64();
    lemma_pow2_adds(1, 137);
    lemma_pow2_adds(4, 137);
    lemma_pow2_adds(5, 137);
    lemma_pow2_adds(12, 137);
    lemma_pow2_adds(13, 137);
    lemma_pow2_adds(25, 137);
    lemma_pow2_adds(29, 137);
}

/// The constants are what their names say.
proof fn lemma_constants()
    ensures
        (Single { bits: TEMP_MIN }).is_finite(),
        (Single { bits: TEMP_MIN }).signed_units() == 40 * pow2(149),
        (Single { bits: TEMP_MAX }).is_finite(),
        (Single { bits: TEMP_MAX }).signed_units() == 230 * pow2(149),
        (Single { bits: STEPS_PER_DEGREE }).is_finite(),
        !(Single { bits: STEPS_PER_DEGREE }).negative(),
        (Single { bits: STEPS_PER_DEGREE }).units() == 10 * pow2(149),
{
    lemma2_to64();
    lemma_pow2_adds(18, 131);
    lemma_pow2_adds(16, 133);
    lemma_pow2_adds(20, 129);
    let min = Single { bits: TEMP_MIN };
    assert(min.significand() == 0xa0_0000 && min.shift() == 131);
    let max = Single { bits: TEMP_MAX };
    assert(max.significand() == 0xe6_0000 && max.shift() == 133);
    let ten = Single { bits: STEPS_PER_DEGREE };
    assert(ten.significand() == 0xa0_0000 && ten.shift() == 129);
}

/// The devices accept the temperatures from 40 to 230 degrees.
pub proof fn law_range(celsius: Single)
    ensures
        in_range(celsius) <==> celsius.is_finite() && 40 * pow2(149) <= celsius.signed_units()
            <= 230 * pow2(149),
{
    lemma_constants();
    let min = Single { bits: TEMP_MIN };
    let max = Single { bits: TEMP_MAX };
    if celsius.is_finite() {
        crate::single::lemma_rank_orders_values(min, celsius);
        crate::single::lemma_rank_orders_values(celsius, max);
    }
}

/// The temperature of `n` tenths lies within ten steps of `2^137` units of them.
pub proof fn lemma_of_tenths_error(n: nat)
    requires
        n <= 0xffff,
    ensures
        of_tenths(n).is_finite(),
        !of_tenths(n).negative(),
        10 * of_tenths(n).units() <= n * pow2(149) + 10 * pow2(137),
        n * pow2(149) <= 10 * of_tenths(n).units() + 10 * pow2(137),
{
    lemma_degree_powers();
    lemma_constants();
    crate::accuracy::lemma_whole_exact(n);
    let ten = Single { bits: STEPS_PER_DEGREE };
    let w = crate::single::whole(n);
    let p = pow2(137);
    let u = pow2(149);
    let num = w.units() * u;
    let den = ten.units();
    let x = of_tenths(n);
    assert(!ten.is_zero());
    assert(n * u < 0x200_0000 * 10 * p) by (nonlinear_arith)
        requires
            n <= 0xffff,
            u == 0x1000 * p,
            p > 0,
    ;
    assert(den > 0);
    assert(num < den * pow2(162)) by (nonlinear_arith)
        requires
            num == (n * u) * u,
            n * u < 0x200_0000 * 10 * p,
            den == 10 * u,
            pow2(162) == 0x200_0000 * p,
            u > 0,
    ;
    crate::accuracy::lemma_nearest_error(false, num, den, 138);
    let a = 10 * x.units();
    let b = n * u;
    assert(x.units() * den == a * u) by (nonlinear_arith)
        requires
            den == 10 * u,
            a == 10 * x.units(),
    ;
    assert(num == b * u);
    assert(a - b <= 10 * p && b - a <= 10 * p) by (nonlinear_arith)
        requires
            2 * (a * u - b * u) <= (10 * u) * (2 * p),
            2 * (b * u - a * u) <= (10 * u) * (2 * p),
            u > 0,
    ;
}

/// Ten times a temperature near `n` tenths rounds to `n`.
proof fn lemma_tenths_near(x: Single, n: nat, max: nat)
    requires
        n <= 0xffff,
        n <= max,
        x.is_finite(),
        !x.negative(),
        10 * x.units() <= n * pow2(149) + 10 * pow2(137),
        n * pow2(149) <= 10 * x.units() + 10 * pow2(137),
    ensures
        tenths(x, max) == n,
{
    lemma_degree_powers();
    lemma_constants();
    let ten = Single { bits: STEPS_PER_DEGREE };
    let p = pow2(137);
    let u = pow2(149);
    let num = x.units() * ten.units();
    let y = x.product(ten);
    let a = 10 * x.units();
    assert(num == a * u) by (nonlinear_arith)
        requires
            num == x.units() * (10 * u),
            a == 10 * x.units(),
    ;
    assert(n * u <= 0xfff_f000 * p) by (nonlinear_arith)
        requires
            n <= 0xffff,
            u == 0x1000 * p,
            p > 0,
    ;
    assert(a <= n * u + 10 * p);
    assert(a < pow2(166));
    assert(num < u * pow2(166)) by (nonlinear_arith)
        requires
            num == a * u,
            a < pow2(166),
            u > 0,
    ;
    crate::accuracy::lemma_nearest_error(false, num, u, 142);
    let b = y.units();
    assert(b - a <= 16 * p && a - b <= 16 * p) by (nonlinear_arith)
        requires
            2 * (b * u - a * u) <= u * (32 * p),
            2 * (a * u - b * u) <= u * (32 * p),
            u > 0,
    ;
    let rest = 2 * b + u - n * pow2(150);
    assert(n * pow2(150) == 2 * (n * u)) by (nonlinear_arith)
        requires
            pow2(150) == 2 * u,
    ;
    vstd::arithmetic::div_mod::lemma_fundamental_div_mod_converse(
        (2 * b + u) as int,
        pow2(150) as int,
        n as int,
        rest,
    );
    assert(y.nearest_whole() == n);
}

/// A raw value of two bytes survives the way to a temperature and back.
pub proof fn law_tenths_round_trip(n: nat, max: nat)
    requires
        n <= 0xffff,
        n <= max,
    ensures
        tenths(of_tenths(n), max) == n,
{
    lemma_of_tenths_error(n);
    lemma_tenths_near(of_tenths(n), n, max);
}

/// The raw values that stand for accepted temperatures are those from 400 to 2300.
pub proof fn law_range_in_tenths(n: nat)
    requires
        n <= 0xffff,
    ensures
        in_range(of_tenths(n)) <==> 400 <= n <= 2300,
{
    let x = of_tenths(n);
    lemma_degree_powers();
    lemma_of_tenths_error(n);
    law_range(x);
    let p = pow2(137);
    assert(n * pow2(149) == 0x1000 * (n * p)) by (nonlinear_arith)
        requires
            pow2(149) == 0x1000 * p,
    ;
    if n < 400 {
        assert(n * p <= 399 * p) by (nonlinear_arith)
            requires
                n <= 399,
                p > 0,
        ;
    } else if n > 2300 {
        assert(n * p >= 2301 * p) by (nonlinear_arith)
            requires
                n >= 2301,
                p > 0,
        ;
    } else {
        lemma_bounds_are_exact(n);
        assert(n * p >= 400 * p) by (nonlinear_arith)
            requires
                n >= 400,
                p > 0,
        ;
        assert(n * p <= 2300 * p) by (nonlinear_arith)
            requires
                n <= 2300,
                p > 0,
        ;
        if 401 <= n {
            assert(n * p >= 401 * p) by (nonlinear_arith)
                requires
                    n >= 401,
                    p > 0,
            ;
        }
        if n <= 2299 {
            assert(n * p <= 2299 * p) by (nonlinear_arith)
                requires
                    n <= 2299,
                    p > 0,
            ;
        }
    }
}

/// 400 and 2300 tenths are 40 and 230 degrees without any rounding.
proof fn lemma_bounds_are_exact(n: nat)
    requires
        n <= 0xffff,
    ensures
        n == 400 ==> of_tenths(n).signed_units() == 40 * pow2(149),
        n == 2300 ==> of_tenths(n).signed_units() == 230 * pow2(149),
{
    if n == 400 {
        law_whole_degrees(40, 0xffff);
    }
    if n == 2300 {
        law_whole_degrees(230, 0xffff);
    }
}

/// Whole degrees are ten times as many tenths, without any rounding, both ways.
pub proof fn law_whole_degrees(degrees: nat, max: nat)
    requires
        degrees <= 6553,
        10 * degrees <= max,
    ensures
        of_tenths(10 * degrees) == crate::single::whole(degrees),
        of_tenths(10 * degrees).signed_units() == degrees * pow2(149),
        tenths(crate::single::whole(degrees), max) == 10 * degrees,
{
    law_tenths_round_trip(10 * degrees, max);
    lemma_constants();
    lemma_degree_powers();
    let n = 10 * degrees;
    let u = pow2(149);
    crate::accuracy::lemma_whole_exact(n);
    crate::accuracy::lemma_whole_exact(degrees);
    let ten = Single { bits: STEPS_PER_DEGREE };
    let num = crate::single::whole(n).units() * u;
    assert(!ten.is_zero());
    assert(num == (degrees * u) * ten.units()) by (nonlinear_arith)
        requires
            num == (n * u) * u,
            n == 10 * degrees,
            ten.units() == 10 * u,
    ;
    crate::rounding::lemma_cancel(degrees * u, ten.units());
}

/// An accepted temperature becomes the nearest number of tenths, between 400 and 2300, up to
/// the rounding of one multiplication.
pub proof fn law_tenths_nearest(celsius: Single, max: nat)
    requires
        in_range(celsius),
        max >= 2300,
    ensures
        400 <= tenths(celsius, max) <= 2300,
        2 * (10 * celsius.units() - tenths(celsius, max) * pow2(149)) <= pow2(149) + pow2(137),
        2 * (tenths(celsius, max) * pow2(149) - 10 * celsius.units()) <= pow2(149) + pow2(137),
{
    lemma_degree_powers();
    lemma_constants();
    law_range(celsius);
    let ten = Single { bits: STEPS_PER_DEGREE };
    let p = pow2(137);
    let u = pow2(149);
    let y = celsius.product(ten);
    let a = 10 * celsius.units();
    let num = celsius.units() * ten.units();
    assert(num == a * u) by (nonlinear_arith)
        requires
            num == celsius.units() * (10 * u),
            a == 10 * celsius.units(),
    ;
    lemma_pow2_adds(24, 137);
    lemma2_to64();
    assert(a < pow2(161));
    assert(num < u * pow2(161)) by (nonlinear_arith)
        requires
            num == a * u,
            a < pow2(161),
            u > 0,
    ;
    crate::accuracy::lemma_nearest_error(false, num, u, 137);
    let b = y.units();
    assert(2 * (b - a) <= p && 2 * (a - b) <= p) by (nonlinear_arith)
        requires
            2 * (b * u - a * u) <= u * p,
            2 * (a * u - b * u) <= u * p,
            u > 0,
    ;
    let w = y.nearest_whole();
    vstd::arithmetic::div_mod::lemma_fundamental_div_mod((2 * b + u) as int, pow2(150) as int);
    assert(pow2(150) * w == 2 * (w * u)) by (nonlinear_arith)
        requires
            pow2(150) == 2 * u,
    ;
    assert(w * u == 0x1000 * (w * p)) by (nonlinear_arith)
        requires
            u == 0x1000 * p,
    ;
    assert(w >= 400) by {
        if w < 400 {
            assert(w * p <= 399 * p) by (nonlinear_arith)
                requires
                    w <= 399,
                    p > 0,
            ;
        }
    }
    assert(w <= 2300) by {
        if w > 2300 {
            assert(w * p >= 2301 * p) by (nonlinear_arith)
                requires
                    w >= 2301,
                    p > 0,
            ;
        }
    }
}

/// An accepted temperature that is written to a device and read back comes out as the nearest
/// tenth of a degree, up to rounding, and writing that again changes nothing.
pub proof fn law_temperature_read_back(celsius: Single, width: nat)
    requires
        in_range(celsius),
        width == 2 || width == 4,
    ensures
        ({
            let max = if width == 2 {
                u16::MAX as nat
            } else {
                u32::MAX as nat
            };
            let bytes = le_seq(tenths(celsius, max), width);
            let read = of_tenths(little_endian(bytes));
            &&& bytes.len() == width
            &&& read.is_finite() && !read.negative()
            &&& 2 * (10 * read.units() - 10 * celsius.units()) <= pow2(149) + 21 * pow2(137)
            &&& 2 * (10 * celsius.units() - 10 * read.units()) <= pow2(149) + 21 * pow2(137)
            &&& le_seq(tenths(read, max), width) == bytes
        }),
{
    let max = if width == 2 {
        u16::MAX as nat
    } else {
        u32::MAX as nat
    };
    let n = tenths(celsius, max);
    law_tenths_nearest(celsius, max);
    reveal_with_fuel(byte_bound, 5);
    law_little_endian_round_trip(n, width);
    lemma_of_tenths_error(n);
    law_tenths_round_trip(n, max);
}

/// `256^width`, above every number of that many bytes.
pub open spec fn byte_bound(width: nat) -> nat
    decreases width,
{
    if width == 0 {
        1
    } else {
        256 * byte_bound((width - 1) as nat)
    }
}

/// Reading the bytes of a number gives the number.
pub proof fn law_little_endian_round_trip(n: nat, width: nat)
    requires
        n < byte_bound(width),
    ensures
        le_seq(n, width).len() == width,
        little_endian(le_seq(n, width)) == n,
    decreases width,
{
    if width > 0 {
        law_little_endian_round_trip(n / 256, (width - 1) as nat);
        assert(le_seq(n, width).skip(1) == le_seq(n / 256, (width - 1) as nat));
    }
}

/// Runs of bytes of the same length that hold the same number are the same.
pub proof fn law_little_endian_unique(a: Seq<u8>, b: Seq<u8>)
    requires
        a.len() == b.len(),
        little_endian(a) == little_endian(b),
    ensures
        a == b,
    decreases a.len(),
{
    if a.len() > 0 {
        law_little_endian_unique(a.skip(1), b.skip(1));
        assert forall|i: int| 0 <= i < a.len() implies a[i] == b[i] by {
            if i > 0 {
                assert(a.skip(1)[i - 1] == b.skip(1)[i - 1]);
            }
        }
    }
}

/// A byte of a command is the last value written to it, and without one it is what the head
/// gives: the command, the mask, or zero.
pub proof fn law_command_byte(cmd_id: u8, mask: u8, payload: Seq<(usize, u8)>, i: int)
    requires
        0 <= i < 20,
    ensures
        command(cmd_id, mask, payload).len() == 20,
        forall|j: int|
            0 <= j < payload.len() && (#[trigger] payload[j]).0 == i && (forall|k: int|
                j < k < payload.len() ==> (#[trigger] payload[k]).0 != i) ==> command(
                cmd_id,
                mask,
                payload,
            )[i] == payload[j].1,
        (forall|j: int| 0 <= j < payload.len() ==> (#[trigger] payload[j]).0 != i) ==> command(
            cmd_id,
            mask,
            payload,
        )[i] == bare_command(cmd_id, mask)[i],
    decreases payload.len(),
{
    if payload.len() > 0 {
        let before = payload.drop_last();
        let last = payload.last();
        law_command_byte(cmd_id, mask, before, i);
        assert(last == payload[payload.len() - 1]);
        assert forall|j: int|
            0 <= j < payload.len() && (#[trigger] payload[j]).0 == i && (forall|k: int|
                j < k < payload.len() ==> (#[trigger] payload[k]).0 != i) implies command(
            cmd_id,
            mask,
            payload,
        )[i] == payload[j].1 by {
            if j < payload.len() - 1 {
                assert(before[j] == payload[j]);
                assert forall|k: int| j < k < before.len() implies (#[trigger] before[k]).0
                    != i by {
                    assert(before[k] == payload[k]);
                }
            }
        }
        if forall|j: int| 0 <= j < payload.len() ==> (#[trigger] payload[j]).0 != i {
            assert forall|j: int| 0 <= j < before.len() implies (#[trigger] before[j]).0 != i by {
                assert(before[j] == payload[j]);
            }
        }
    }
}

/// Powers of two around the conversion, in multiples of `2^126`.
proof fn lemma_scale_powers()
    ensures
        pow2(126) > 0,
        pow2(133) == 128 * pow2(126),
        pow2(134) == 256 * pow2(126),
        pow2(135) == 512 * pow2(126),
        pow2(149) == 0x80_0000 * pow2(126),
        pow2(157) == 0x8000_0000 * pow2(126),
        pow2(158) == 0x1_0000_0000 * pow2(126),
{
    lemma_pow2_pos(126);
    lemma2_to64();
    lemma_pow2_adds(7, 126);
    lemma_pow2_adds(8, 126);
    lemma_pow2_adds(9, 126);
    lemma_pow2_adds(23, 126);
    lemma_pow2_adds(31, 126);
    lemma_pow2_adds(32, 126);
}

/// 1.8 and 32 as singles.
proof fn lemma_scale_constants()
    ensures
        ({
            let scale = Single { bits: FAHRENHEIT_SCALE };
            let offset = Single { bits: FAHRENHEIT_OFFSET };
            &&& scale.is_finite() && !scale.negative() && !scale.is_zero()
            &&& scale.units() == 0xe6_6666 * pow2(126)
            &&& offset.is_finite() && !offset.negative()
            &&& offset.units() == 32 * pow2(149)
        }),
{
    lemma2_to64();
    lemma_pow2_adds(18, 131);
    let scale = Single { bits: FAHRENHEIT_SCALE };
    assert(scale.significand() == 0xe6_6666 && scale.shift() == 126);
    let offset = Single { bits: FAHRENHEIT_OFFSET };
    assert(offset.significand() == 0x80_0000 && offset.shift() == 131);
}

/// The product with 1.8, for temperatures of the accepted range.
proof fn lemma_scaled(c: Single)
    requires
        c.is_finite(),
        !c.negative(),
        40 * pow2(149) <= c.units() <= 230 * pow2(149),
    ensures
        ({
            let x = c.product(Single { bits: FAHRENHEIT_SCALE });
            &&& x.is_finite() && !x.negative()
            &&& 2 * (x.units() * 0x80_0000 - c.units() * 0xe6_6666) <= 0x80_0000 * pow2(134)
            &&& 2 * (c.units() * 0xe6_6666 - x.units() * 0x80_0000) <= 0x80_0000 * pow2(134)
        }),
{
    lemma_scale_powers();
    lemma_scale_constants();
    let scale = Single { bits: FAHRENHEIT_SCALE };
    let p = pow2(126);
    let u = pow2(149);
    let num = c.units() * scale.units();
    let x = c.product(scale);
    let a = c.units() * 0xe6_6666;
    assert(num == a * p) by (nonlinear_arith)
        requires
            num == c.units() * (0xe6_6666 * p),
            a == c.units() * 0xe6_6666,
    ;
    assert(num < u * pow2(158)) by (nonlinear_arith)
        requires
            num == a * p,
            a < 0x80_0000 * pow2(158),
            u == 0x80_0000 * p,
            p > 0,
    ;
    crate::accuracy::lemma_nearest_error(false, num, u, 134);
    let b = x.units() * 0x80_0000;
    assert(x.units() * u == b * p) by (nonlinear_arith)
        requires
            u == 0x80_0000 * p,
            b == x.units() * 0x80_0000,
    ;
    assert(2 * (b - a) <= 0x80_0000 * pow2(134) && 2 * (a - b) <= 0x80_0000 * pow2(134))
        by (nonlinear_arith)
        requires
            2 * (b * p - a * p) <= u * pow2(134),
            2 * (a * p - b * p) <= u * pow2(134),
            u == 0x80_0000 * p,
            p > 0,
    ;
}

/// The quotient by 1.8, for what the conversion back meets.
proof fn lemma_unscaled(d: Single)
    requires
        d.is_finite(),
        !d.negative(),
        d.units() <= 450 * pow2(149),
    ensures
        ({
            let x = d.quotient(Single { bits: FAHRENHEIT_SCALE });
            &&& x.is_finite() && !x.negative()
            &&& 2 * (x.units() * 0xe6_6666 - d.units() * 0x80_0000) <= 0xe6_6666 * pow2(133)
            &&& 2 * (d.units() * 0x80_0000 - x.units() * 0xe6_6666) <= 0xe6_6666 * pow2(133)
        }),
{
    lemma_scale_powers();
    lemma_scale_constants();
    let scale = Single { bits: FAHRENHEIT_SCALE };
    let p = pow2(126);
    let u = pow2(149);
    let den = scale.units();
    let num = d.units() * u;
    let x = d.quotient(scale);
    let a = d.units() * 0x80_0000;
    assert(num == a * p) by (nonlinear_arith)
        requires
            num == d.units() * u,
            u == 0x80_0000 * p,
            a == d.units() * 0x80_0000,
    ;
    assert(num < den * pow2(157)) by (nonlinear_arith)
        requires
            num == a * p,
            a < 0xe6_6666 * pow2(157),
            den == 0xe6_6666 * p,
            p > 0,
    ;
    crate::accuracy::lemma_nearest_error(false, num, den, 133);
    let b = x.units() * 0xe6_6666;
    assert(x.units() * den == b * p) by (nonlinear_arith)
        requires
            den == 0xe6_6666 * p,
            b == x.units() * 0xe6_6666,
    ;
    assert(2 * (b - a) <= 0xe6_6666 * pow2(133) && 2 * (a - b) <= 0xe6_6666 * pow2(133))
        by (nonlinear_arith)
        requires
            2 * (b * p - a * p) <= den * pow2(133),
            2 * (a * p - b * p) <= den * pow2(133),
            den == 0xe6_6666 * p,
            p > 0,
    ;
}

/// An accepted temperature survives the way to Fahrenheit and back, up to a 2^14th of a
/// degree.
pub proof fn law_fahrenheit_round_trip(c: Single)
    requires
        in_range(c),
    ensures
        celsius(fahrenheit(c)).is_finite(),
        celsius(fahrenheit(c)).signed_units() - c.signed_units() <= pow2(135),
        c.signed_units() - celsius(fahrenheit(c)).signed_units() <= pow2(135),
{
    law_range(c);
    lemma_scale_powers();
    lemma_scale_constants();
    let u = pow2(149);
    let offset = Single { bits: FAHRENHEIT_OFFSET };
    let scaled = c.product(Single { bits: FAHRENHEIT_SCALE });
    lemma_scaled(c);
    let warm = scaled.units() + offset.units();
    assert(warm < 1 * pow2(158));
    crate::accuracy::lemma_nearest_error(false, warm as nat, 1, 134);
    let f = fahrenheit(c);
    assert(f == crate::single::nearest(false, warm as nat, 1));
    let back = f.units() - offset.units();
    assert(0 < back < pow2(158));
    assert(offset.opposite().is_finite() && offset.opposite().signed_units() == -offset.units());
    crate::accuracy::lemma_nearest_error(false, back as nat, 1, 134);
    let d = f.difference(offset);
    assert(d == crate::single::nearest(false, back as nat, 1));
    lemma_unscaled(d);
}

/// Fahrenheit is nine fifths of the degrees Celsius plus 32, up to a 2^12th of a degree over the
/// five parts.
pub proof fn law_fahrenheit(c: Single, f: Single)
    requires
        call_ensures(celsius_to_fahrenheit, (c,), f),
        c.is_finite(),
        40 * pow2(149) <= c.signed_units() <= 230 * pow2(149),
    ensures
        f.is_finite(),
        -pow2(137) <= 5 * f.signed_units() - 9 * c.signed_units() - 160 * pow2(149) <= pow2(137),
{
    lemma_scale_powers();
    lemma_scale_constants();
    lemma2_to64();
    lemma_pow2_adds(11, 126);
    let offset = Single { bits: FAHRENHEIT_OFFSET };
    let scaled = c.product(Single { bits: FAHRENHEIT_SCALE });
    lemma_scaled(c);
    let warm = scaled.units() + offset.units();
    assert(warm < 1 * pow2(158));
    crate::accuracy::lemma_nearest_error(false, warm as nat, 1, 134);
    assert(f == crate::single::nearest(false, warm as nat, 1));
}

/// Celsius is five ninths of what the degrees Fahrenheit are above 32, up to a 2^12th of a degree
/// over the nine parts.
pub proof fn law_celsius(f: Single, c: Single)
    requires
        call_ensures(fahrenheit_to_celsius, (f,), c),
        f.is_finite(),
        104 * pow2(149) <= f.signed_units() <= 446 * pow2(149),
    ensures
        c.is_finite(),
        -pow2(137) <= 9 * c.signed_units() - 5 * f.signed_units() + 160 * pow2(149) <= pow2(137),
{
    lemma_scale_powers();
    lemma_scale_constants();
    lemma2_to64();
    lemma_pow2_adds(11, 126);
    let offset = Single { bits: FAHRENHEIT_OFFSET };
    let back = f.units() - offset.units();
    assert(0 < back < pow2(158));
    assert(offset.opposite().is_finite() && offset.opposite().signed_units() == -offset.units());
    crate::accuracy::lemma_nearest_error(false, back as nat, 1, 134);
    let d = f.difference(offset);
    assert(d == crate::single::nearest(false, back as nat, 1));
    lemma_unscaled(d);
}

/// The bytes of an answer count 1, 256 and 65536 times, and what is behind them does not count.
pub proof fn law_raw_numbers(
    bytes: &[u8],
    two: Result<u16, StorzError>,
    three: Result<u32, StorzError>,
)
    requires
        call_ensures(raw_to_u16, (bytes,), two),
        call_ensures(raw_to_u24, (bytes,), three),
    ensures
        two is Ok <==> bytes@.len() >= 2,
        two is Ok ==> two->Ok_0 == bytes@[0] + 256 * bytes@[1],
        three is Ok <==> bytes@.len() >= 3,
        three is Ok ==> three->Ok_0 == bytes@[0] + 256 * bytes@[1] + 65536 * bytes@[2],
        two is Err ==> two->Err_0@ == crate::error::unparsed(
            "Expected >= 2 bytes for u16, got "@ + crate::text::decimal(bytes@.len()),
        ),
        three is Err ==> three->Err_0@ == crate::error::unparsed(
            "Expected >= 3 bytes for u24, got "@ + crate::text::decimal(bytes@.len()),
        ),
{
    reveal_with_fuel(little_endian, 4);
    if bytes@.len() >= 2 {
        let s = bytes@.take(2);
        assert(s.skip(1) == seq![s[1]]);
        assert(s.skip(1).skip(1) == Seq::<u8>::empty());
    }
    if bytes@.len() >= 3 {
        let s = bytes@.take(3);
        assert(s.skip(1) == seq![s[1], s[2]]);
        assert(s.skip(1).skip(1) == seq![s[2]]);
        assert(s.skip(1).skip(1).skip(1) == Seq::<u8>::empty());
    }
}

/// The temperature of an answer is a tenth of its number, up to a 2^12th of a degree. An answer of
/// four bytes whose upper two are zero tells the same as its lower two.
pub proof fn law_raw_celsius(
    bytes: &[u8],
    r: Result<Single, StorzError>,
    q: Result<Single, StorzError>,
)
    requires
        call_ensures(raw_to_celsius_u16, (bytes,), r),
        call_ensures(raw_to_celsius_u32, (bytes,), q),
    ensures
        q is Ok <==> bytes@.len() >= 4,
        q is Ok && bytes@[2] == 0 && bytes@[3] == 0 ==> q->Ok_0 == r->Ok_0,
        r is Err ==> r->Err_0@ == crate::error::unparsed(
            "Expected >= 2 bytes for u16, got "@ + crate::text::decimal(bytes@.len()),
        ),
        q is Err ==> q->Err_0@ == crate::error::unparsed(
            "Expected >= 4 bytes for u32, got "@ + crate::text::decimal(bytes@.len()),
        ),
        r is Ok <==> bytes@.len() >= 2,
        r is Ok ==> r->Ok_0.is_finite() && -10 * pow2(137) <= 10 * r->Ok_0.signed_units() - (
        bytes@[0] + 256 * bytes@[1]) * pow2(149) <= 10 * pow2(137),
{
    if bytes@.len() >= 2 {
        reveal_with_fuel(little_endian, 3);
        let s = bytes@.take(2);
        assert(s.skip(1) == seq![s[1]]);
        assert(s.skip(1).skip(1) == Seq::<u8>::empty());
        lemma_of_tenths_error(little_endian(s));
    }
    if bytes@.len() >= 4 {
        reveal_with_fuel(little_endian, 5);
        let s = bytes@.take(4);
        assert(s.skip(1) == seq![s[1], s[2], s[3]]);
        assert(s.skip(1).skip(1) == seq![s[2], s[3]]);
        assert(s.skip(1).skip(1).skip(1) == seq![s[3]]);
        assert(s.skip(1).skip(1).skip(1).skip(1) == Seq::<u8>::empty());
    }
}

/// A temperature that is accepted in two bytes is accepted in four, which are the same two and
/// two zeros. They are the nearest number of tenths, low byte first.
pub proof fn law_raw_bytes(
    celsius: Single,
    two: Result<[u8; 2], StorzError>,
    four: Result<[u8; 4], StorzError>,
)
    requires
        call_ensures(celsius_to_raw_u16, (celsius,), two),
        call_ensures(celsius_to_raw_u32, (celsius,), four),
    ensures
        two is Ok <==> celsius.is_finite() && 40 * pow2(149) <= celsius.signed_units() <= 230
            * pow2(149),
        four is Ok <==> two is Ok,
        two is Ok ==> ({
            let low = two->Ok_0@[0];
            let high = two->Ok_0@[1];
            let off = 10 * celsius.signed_units() - (low + 256 * high) * pow2(149);
            &&& four->Ok_0@ == seq![low, high, 0u8, 0u8]
            &&& -(pow2(149) + pow2(137)) <= 2 * off <= pow2(149) + pow2(137)
        }),
{
    law_range(celsius);
    if in_range(celsius) {
        law_tenths_nearest(celsius, u16::MAX as nat);
        law_tenths_nearest(celsius, u32::MAX as nat);
        reveal_with_fuel(le_seq, 5);
        lemma_same_tenths(celsius);
        let n = tenths(celsius, u16::MAX as nat);
        assert(n / 256 / 256 == 0);
        assert(n == n % 256 + 256 * (n / 256));
    }
}

/// The cut at the largest number does not matter for a temperature in range.
proof fn lemma_same_tenths(celsius: Single)
    requires
        in_range(celsius),
    ensures
        tenths(celsius, u16::MAX as nat) == tenths(celsius, u32::MAX as nat),
{
    law_tenths_nearest(celsius, u16::MAX as nat);
}

/// A command of a Venty has 20 bytes: first the command, then the mask, unless something else is
/// written there, and what is written last to a place stands there.
pub proof fn law_command(cmd_id: u8, mask: u8, payload: &[(usize, u8)], r: [u8; 20], i: int, j: int)
    requires
        call_ensures(build_venty_command, (cmd_id, mask, payload), r),
        0 <= i < 20,
        -1 <= j < payload@.len(),
        j >= 0 ==> payload@[j].0 == i,
        forall|k: int| j < k < payload@.len() ==> (#[trigger] payload@[k]).0 != i,
    ensures
        j >= 0 ==> r@[i] == payload@[j].1,
        j == -1 ==> r@[i] == if i == 0 {
            cmd_id
        } else if i == 1 {
            mask
        } else {
            0
        },
{
    law_command_byte(cmd_id, mask, payload@, i);
}

} // verus!
