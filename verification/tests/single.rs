use storz_rs::shown::one_decimal_text;
use storz_rs::single::Single;

fn s(x: f32) -> Single {
    Single::from_bits(x.to_bits())
}

fn same(got: Single, want: f32) {
    if want.is_nan() {
        assert!(f32::from_bits(got.to_bits()).is_nan());
    } else {
        assert_eq!(got.to_bits(), want.to_bits());
    }
}

struct Bits(u64);

impl Bits {
    fn next(&mut self) -> u64 {
        self.0 = self.0.wrapping_mul(6364136223846793005).wrapping_add(1442695040888963407);
        self.0 ^ (self.0 >> 29)
    }

    /// Bit patterns of all kinds, with many special and many ordinary ones.
    fn single(&mut self) -> f32 {
        let specials = [
            0u32, 0x8000_0000, 1, 0x8000_0001, 0x007f_ffff, 0x0080_0000, 0x7f7f_ffff, 0xff7f_ffff,
            0x7f80_0000, 0xff80_0000, 0x7fc0_0000, 0x3f80_0000, 0xbf80_0000, 0x3f00_0000,
            0x4b00_0000, 0x4b80_0000, 0x4f80_0000,
        ];
        let n = self.next();
        match n % 8 {
            0 => f32::from_bits(specials[(n >> 8) as usize % specials.len()]),
            1 | 2 => ((n >> 8) % 2_400_000) as f32 / 10_000.0,
            3 => -(((n >> 8) % 2_400_000) as f32 / 10_000.0),
            4 => ((n >> 8) % 5000) as f32 / 2.0,
            _ => f32::from_bits((n >> 16) as u32),
        }
    }
}

#[test]
fn products_are_those_of_the_hardware() {
    let mut bits = Bits(1);
    for _ in 0..200_000 {
        let (a, b) = (bits.single(), bits.single());
        same(s(a).times(s(b)), a * b);
    }
}

#[test]
fn quotients_are_those_of_the_hardware() {
    let mut bits = Bits(2);
    for _ in 0..200_000 {
        let (a, b) = (bits.single(), bits.single());
        same(s(a).divided_by(s(b)), a / b);
    }
}

#[test]
fn sums_and_differences_are_those_of_the_hardware() {
    let mut bits = Bits(3);
    for _ in 0..200_000 {
        let (a, b) = (bits.single(), bits.single());
        same(s(a).plus(s(b)), a + b);
        same(s(a).minus(s(b)), a - b);
    }
}

#[test]
fn comparisons_are_those_of_the_hardware() {
    let mut bits = Bits(4);
    for _ in 0..200_000 {
        let (a, b) = (bits.single(), bits.single());
        assert_eq!(s(a).at_most(s(b)), a <= b);
        assert_eq!(s(a).below(s(b)), a < b);
        let smaller = f32::from_bits(s(a).min(s(b)).to_bits());
        let larger = f32::from_bits(s(a).max(s(b)).to_bits());
        assert!(smaller == a.min(b) || (a.is_nan() && b.is_nan()));
        assert!(larger == a.max(b) || (a.is_nan() && b.is_nan()));
        let clamped = s(a).clamp(s(40.0), s(230.0));
        same(clamped, a.clamp(40.0, 230.0));
        same(s(a).abs(), a.abs());
        assert_eq!(s(a).not_a_number(), a.is_nan());
    }
}

#[test]
fn rounding_is_that_of_the_hardware() {
    let mut bits = Bits(5);
    for _ in 0..200_000 {
        let a = bits.single();
        same(s(a).round(), a.round());
        assert_eq!(s(a).round_saturating(u32::MAX), a.round() as u32);
        assert_eq!(s(a).round_saturating(0xffff), u32::from(a.round() as u16));
        assert_eq!(s(a).round_saturating(255), u32::from(a.round() as u8));
    }
    // Halves go away from zero.
    assert_eq!(s(0.5).round_saturating(10), 1);
    assert_eq!(s(1.5).round_saturating(10), 2);
    assert_eq!(s(2.5).round_saturating(10), 3);
    assert_eq!(s(-0.5).round().to_bits(), (-1.0f32).to_bits());
}

#[test]
fn whole_numbers_are_converted_as_by_the_hardware() {
    let mut bits = Bits(6);
    for _ in 0..200_000 {
        let n = bits.next() as u32 >> (bits.next() % 32);
        same(Single::from_u32(n), n as f32);
    }
    same(Single::from_u32(u32::MAX), 4294967296.0);
}

#[test]
fn doubles_are_narrowed_as_by_the_hardware() {
    let mut bits = Bits(7);
    for i in 0..200_000u64 {
        let x = match i % 4 {
            0 => f64::from_bits(bits.next() ^ (bits.next() << 32)),
            1 => bits.single() as f64,
            2 => bits.single() as f64 * (1.0 + f64::from_bits(0x3e60_0000_0000_0000)),
            _ => (bits.next() % 1_000_000) as f64 / 1000.0,
        };
        same(Single::from_double(x.to_bits()), x as f32);
    }
    same(Single::from_double(185.5f64.to_bits()), 185.5);
    same(Single::from_double(1e300f64.to_bits()), f32::INFINITY);
    same(Single::from_double(f64::NAN.to_bits()), f32::NAN);
}

#[test]
fn no_other_single_is_nearer() {
    let mut bits = Bits(8);
    for _ in 0..100_000 {
        // The product of two singles is exact in double precision.
        let a = 1.0 + (bits.next() % 2_000_000) as f32 / 8192.0;
        let b = 1.0 + (bits.next() % 2_000_000) as f32 / 8192.0;
        let exact = f64::from(a) * f64::from(b);
        let x = s(a).times(s(b)).to_bits();
        let off = |pattern: u32| (f64::from(f32::from_bits(pattern)) - exact).abs();
        assert!(off(x) <= off(x - 1) && off(x) <= off(x + 1));
    }
}

#[test]
fn one_decimal_is_that_of_the_standard_library() {
    let mut bits = Bits(9);
    for _ in 0..200_000 {
        let a = bits.single();
        assert_eq!(one_decimal_text(s(a)), format!("{a:.1}"), "{a}");
    }
    for a in [0.25f32, 0.75, 0.05, 0.15, 0.35, 0.45, -0.04, 99.95, 1e9, 16777216.0, f32::MAX, f32::MIN] {
        assert_eq!(one_decimal_text(s(a)), format!("{a:.1}"), "{a}");
    }
    for raw in 0..=0xffffu32 {
        let a = raw as f32 / 10.0;
        assert_eq!(one_decimal_text(s(a)), format!("{}.{}", raw / 10, raw % 10));
    }
}
