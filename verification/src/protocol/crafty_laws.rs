//! What writes do to a Crafty, and what its notifications tell.
use crate::device::DeviceInfo;
use crate::device::DeviceState;
use crate::error::StorzError;
use crate::gatt::CharacteristicWrite;
use crate::protocol::crafty::Crafty;
use crate::single::Single;
use crate::uuids::CraftyUuids;
use vstd::arithmetic::power2::pow2;
use vstd::prelude::*;

verus! {

/// A Crafty as writes to its characteristics see it.
pub struct Portable {
    pub heater: bool,
    /// Target in tenths of a degree.
    pub target: int,
    /// Boost offset in tenths of a degree.
    pub boost: int,
    pub brightness: int,
    /// Seconds until it switches itself off.
    pub countdown: int,
    pub code: int,
    /// It was reset to its factory settings.
    pub reset: bool,
}

/// What a write does: switching on and off have characteristics of their own, and values are
/// numbers of two bytes with the low byte first.
pub open spec fn obeyed(m: Portable, u: CraftyUuids, uuid: u128, bytes: Seq<u8>) -> Portable {
    let n = crate::protocol::volcano_laws::two(bytes);
    if uuid == u.heater_on {
        Portable { heater: true, ..m }
    } else if uuid == u.heater_off {
        Portable { heater: false, ..m }
    } else if uuid == u.factory_reset {
        Portable { reset: true, ..m }
    } else if bytes.len() != 2 {
        m
    } else if uuid == u.write_temp {
        Portable { target: n, ..m }
    } else if uuid == u.write_boost_temp {
        Portable { boost: n, ..m }
    } else if uuid == u.led_brightness {
        Portable { brightness: n, ..m }
    } else if uuid == u.auto_off_countdown {
        Portable { countdown: n, ..m }
    } else if uuid == u.sicherheitscode {
        Portable { code: n, ..m }
    } else {
        m
    }
}

/// The characteristics that are written to.
pub open spec fn written(u: CraftyUuids) -> Seq<u128> {
    seq![
        u.heater_on,
        u.heater_off,
        u.factory_reset,
        u.write_temp,
        u.write_boost_temp,
        u.led_brightness,
        u.auto_off_countdown,
        u.sicherheitscode,
    ]
}

proof fn lemma_apart(u: CraftyUuids)
    requires
        written(u).no_duplicates(),
    ensures
        forall|i: int, j: int| 0 <= i < j < 8 ==> #[trigger] written(u)[i] != #[trigger] written(u)[j],
        written(u)[0] == u.heater_on,
        written(u)[1] == u.heater_off,
        written(u)[2] == u.factory_reset,
        written(u)[3] == u.write_temp,
        written(u)[4] == u.write_boost_temp,
        written(u)[5] == u.led_brightness,
        written(u)[6] == u.auto_off_countdown,
        written(u)[7] == u.sicherheitscode,
{
}

/// The outcome of an operation that needs the characteristic `uuid` brings the model `m` to
/// `after`; it is an error exactly where the device lacks that characteristic.
pub open spec fn brings(
    d: Crafty,
    uuid: u128,
    r: Result<CharacteristicWrite, StorzError>,
    m: Portable,
    after: Portable,
) -> bool {
    if d.characteristics@.contains(uuid) {
        r matches Ok(w) && obeyed(m, d.uuids, w.uuid, w.bytes@) == after
    } else {
        r matches Err(e) && e@ == unknown(uuid)
    }
}

/// The error that names a characteristic which the device does not have.
pub open spec fn unknown(uuid: u128) -> crate::error::Failure {
    crate::error::Failure::ParseError(
        crate::error::DetailView::Text(
            "Characteristic "@ + crate::gatt::hyphenated(uuid) + " not found"@,
        ),
    )
}

/// Switching the heater and resetting do exactly that.
pub proof fn law_heater_and_reset(
    d: Crafty,
    on: Result<CharacteristicWrite, StorzError>,
    off: Result<CharacteristicWrite, StorzError>,
    reset: Result<CharacteristicWrite, StorzError>,
    m: Portable,
)
    requires
        written(d.uuids).no_duplicates(),
        call_ensures(Crafty::heater_on, (&d,), on),
        call_ensures(Crafty::heater_off, (&d,), off),
        call_ensures(Crafty::factory_reset, (&d,), reset),
    ensures
        brings(d, d.uuids.heater_on, on, m, Portable { heater: true, ..m }),
        brings(d, d.uuids.heater_off, off, m, Portable { heater: false, ..m }),
        brings(d, d.uuids.factory_reset, reset, m, Portable { reset: true, ..m }),
        on matches Ok(w) ==> w.bytes@ == seq![0u8],
        off matches Ok(w) ==> w.bytes@ == seq![0u8],
        reset matches Ok(w) ==> w.bytes@ == seq![0u8],
{
    lemma_apart(d.uuids);
}

/// A target from 40 to 230 degrees is set in the nearest tenths of a degree, up to the rounding
/// of one multiplication, and any other is refused.
pub proof fn law_target(
    d: Crafty,
    celsius: Single,
    r: Result<CharacteristicWrite, StorzError>,
    m: Portable,
)
    requires
        written(d.uuids).no_duplicates(),
        call_ensures(Crafty::set_target_temperature, (&d, celsius), r),
    ensures
        r is Ok <==> d.characteristics@.contains(d.uuids.write_temp) && celsius.is_finite() && 40
            * pow2(149) <= celsius.signed_units() <= 230 * pow2(149),
        r matches Ok(w) ==> ({
            let after = obeyed(m, d.uuids, w.uuid, w.bytes@);
            &&& after == (Portable { target: after.target, ..m })
            &&& w.bytes@.len() == 2 && w.uuid == d.uuids.write_temp
            &&& after.target == crate::protocol::volcano_laws::two(w.bytes@)
            &&& 400 <= after.target <= 2300
            &&& 2 * (10 * celsius.signed_units() - after.target * pow2(149)) <= pow2(149) + pow2(137)
            &&& 2 * (after.target * pow2(149) - 10 * celsius.signed_units()) <= pow2(149) + pow2(137)
        }),
        !d.characteristics@.contains(d.uuids.write_temp) ==> (r matches Err(e) && e@ == unknown(
            d.uuids.write_temp,
        )),
        d.characteristics@.contains(d.uuids.write_temp) ==> (r matches Err(e) ==> e@ is ParseError
            && e@->ParseError_0 == (crate::error::DetailView::OutOfRange { celsius })),
{
    lemma_apart(d.uuids);
    crate::utils::law_range(celsius);
    if crate::utils::in_range(celsius) {
        crate::utils::law_tenths_nearest(celsius, u16::MAX as nat);
        crate::protocol::volcano_laws::lemma_number_bytes(
            crate::utils::tenths(celsius, u16::MAX as nat),
        );
    }
}

/// Brightness, countdown and security code are set to the very number that was asked for.
pub proof fn law_values(
    d: Crafty,
    value: u16,
    brightness: Result<CharacteristicWrite, StorzError>,
    countdown: Result<CharacteristicWrite, StorzError>,
    code: Result<CharacteristicWrite, StorzError>,
    m: Portable,
)
    requires
        written(d.uuids).no_duplicates(),
        call_ensures(Crafty::set_brightness, (&d, value), brightness),
        call_ensures(Crafty::set_auto_off_countdown, (&d, value), countdown),
        call_ensures(Crafty::set_security_code, (&d, value), code),
    ensures
        brings(
            d,
            d.uuids.led_brightness,
            brightness,
            m,
            Portable { brightness: value as int, ..m },
        ),
        brings(
            d,
            d.uuids.auto_off_countdown,
            countdown,
            m,
            Portable { countdown: value as int, ..m },
        ),
        brings(d, d.uuids.sicherheitscode, code, m, Portable { code: value as int, ..m }),
{
    lemma_apart(d.uuids);
    crate::protocol::volcano_laws::lemma_number_bytes(value as nat);
}

/// The boost offset is set alone, and from 0 to 300 tenths of a degree: 0 for what is below or no
/// number, 300 from 30 degrees on, and the nearest tenths between, up to the rounding of one
/// multiplication.
pub proof fn law_boost(
    d: Crafty,
    celsius: Single,
    r: Result<CharacteristicWrite, StorzError>,
    m: Portable,
)
    requires
        written(d.uuids).no_duplicates(),
        call_ensures(Crafty::set_boost_temperature, (&d, celsius), r),
    ensures
        r is Ok <==> d.characteristics@.contains(d.uuids.write_boost_temp),
        r matches Ok(w) ==> ({
            let after = obeyed(m, d.uuids, w.uuid, w.bytes@);
            let u = pow2(149) as int;
            &&& after == (Portable { boost: after.boost, ..m })
            &&& w.bytes@.len() == 2 && w.uuid == d.uuids.write_boost_temp
            &&& after.boost == crate::protocol::volcano_laws::two(w.bytes@)
            &&& 0 <= after.boost <= 300
            &&& celsius.is_nan() || celsius.negative() ==> after.boost == 0
            &&& !celsius.is_nan() && !celsius.negative() && (celsius.is_infinite()
                || celsius.units() >= 30 * u) ==> after.boost == 300
            &&& celsius.is_finite() && 0 <= celsius.signed_units() <= 30 * u ==> 2 * (10
                * celsius.units() - after.boost * u) <= u + pow2(137) && 2 * (after.boost * u - 10
                * celsius.units()) <= u + pow2(137)
        }),
{
    lemma_apart(d.uuids);
    lemma_boost_offset(celsius);
    let kept = crate::protocol::crafty::boost_offset(celsius);
    lemma_boost_tenths(kept);
    crate::protocol::volcano_laws::lemma_number_bytes(crate::utils::tenths(kept, 0xffff));
}

/// What an offset is kept to.
proof fn lemma_boost_offset(celsius: Single)
    ensures
        ({
            let kept = crate::protocol::crafty::boost_offset(celsius);
            let u = pow2(149) as int;
            &&& celsius.is_nan() ==> kept == celsius
            &&& !celsius.is_nan() ==> kept.is_finite() && 0 <= kept.signed_units() <= 30 * u
            &&& !celsius.is_nan() && celsius.negative() ==> kept.signed_units() == 0
            &&& !celsius.is_nan() && !celsius.negative() && (celsius.is_infinite()
                || celsius.units() >= 30 * u) ==> kept.signed_units() == 30 * u
            &&& celsius.is_finite() && 0 <= celsius.signed_units() <= 30 * u ==> kept.signed_units()
                == celsius.signed_units()
        }),
{
    let low = Single { bits: 0 };
    let high = Single { bits: crate::protocol::crafty::BOOST_MAX };
    vstd::arithmetic::power2::lemma2_to64();
    vstd::arithmetic::power2::lemma_pow2_adds(19, 130);
    vstd::arithmetic::power2::lemma_pow2_pos(149);
    assert(high.significand() == 0xf0_0000 && high.shift() == 130);
    assert(high.signed_units() == 30 * pow2(149));
    assert(low.significand() == 0 && low.shift() == 0 && pow2(0) == 1);
    assert(low.signed_units() == 0);
    if celsius.is_finite() {
        crate::single::lemma_rank_orders_values(celsius, low);
        crate::single::lemma_rank_orders_values(low, celsius);
        crate::single::lemma_rank_orders_values(celsius, high);
        crate::single::lemma_rank_orders_values(high, celsius);
    }
}

/// An offset from 0 to 30 degrees in tenths of a degree; 0 for what is no number.
proof fn lemma_boost_tenths(kept: Single)
    requires
        kept.is_nan() || (kept.is_finite() && 0 <= kept.signed_units() <= 30 * pow2(149)),
    ensures
        ({
            let t = crate::utils::tenths(kept, 0xffff);
            let u = pow2(149) as int;
            &&& t <= 300
            &&& kept.is_nan() ==> t == 0
            &&& !kept.is_nan() ==> 2 * (10 * kept.units() - t * u) <= u + pow2(137) && 2 * (t * u
                - 10 * kept.units()) <= u + pow2(137)
            &&& !kept.is_nan() && kept.signed_units() == 0 ==> t == 0
            &&& !kept.is_nan() && kept.signed_units() == 30 * u ==> t == 300
        }),
{
    let ten = Single { bits: crate::utils::STEPS_PER_DEGREE };
    let u = pow2(149);
    let p = pow2(137);
    vstd::arithmetic::power2::lemma2_to64();
    vstd::arithmetic::power2::lemma_pow2_pos(137);
    vstd::arithmetic::power2::lemma_pow2_adds(12, 137);
    vstd::arithmetic::power2::lemma_pow2_adds(1, 149);
    vstd::arithmetic::power2::lemma_pow2_adds(24, 137);
    vstd::arithmetic::power2::lemma_pow2_adds(20, 129);
    assert(ten.significand() == 0xa0_0000 && ten.shift() == 129);
    assert(ten.units() == 10 * u && !ten.negative() && ten.is_finite());
    if !kept.is_nan() {
        let a = 10 * kept.units();
        let num = kept.units() * ten.units();
        assert(num == a * u) by (nonlinear_arith)
            requires
                num == kept.units() * (10 * u),
                a == 10 * kept.units(),
        ;
        assert(num < u * pow2(161)) by (nonlinear_arith)
            requires
                num == a * u,
                a < pow2(161),
                u > 0,
        ;
        let neg = kept.negative() != ten.negative();
        crate::accuracy::lemma_nearest_error(neg, num, u, 137);
        let y = kept.product(ten);
        let b = y.units();
        assert(2 * (b - a) <= p && 2 * (a - b) <= p) by (nonlinear_arith)
            requires
                2 * (b * u - a * u) <= u * p,
                2 * (a * u - b * u) <= u * p,
                u > 0,
        ;
        let w = y.nearest_whole();
        vstd::arithmetic::div_mod::lemma_fundamental_div_mod((2 * b + u) as int, pow2(150) as int);
        vstd::arithmetic::div_mod::lemma_mod_bound((2 * b + u) as int, pow2(150) as int);
        assert(pow2(150) * w == 2 * (w * u)) by (nonlinear_arith)
            requires
                pow2(150) == 2 * u,
        ;
        assert(w * u == 0x1000 * (w * p)) by (nonlinear_arith)
            requires
                u == 0x1000 * p,
        ;
        if w > 300 {
            assert(w * p >= 301 * p) by (nonlinear_arith)
                requires
                    w >= 301,
                    p > 0,
            ;
        }
        if kept.signed_units() == 30 * u && w < 300 {
            assert(w * p <= 299 * p) by (nonlinear_arith)
                requires
                    w <= 299,
                    p > 0,
            ;
        }
        if kept.signed_units() == 0 && w > 0 {
            assert(w * p >= p) by (nonlinear_arith)
                requires
                    w >= 1,
                    p > 0,
            ;
        }
    }
}

/// A notification of the measured temperature tells it in tenths of a degree, in two bytes, and
/// no other notification tells anything.
pub proof fn law_temperature(d: &mut Crafty, uuid: u128, data: &[u8], r: bool)
    requires
        call_ensures(Crafty::handle_notification, (d, uuid, data), r),
    ensures
        r <==> uuid == old(d).uuids.current_temp_changed && data@.len() >= 2,
        !r ==> final(d).state == old(d).state,
        r ==> final(d).state == (DeviceState {
            current_temp: final(d).state.current_temp,
            ..old(d).state
        }) && crate::protocol::volcano_laws::is_tenths(
            final(d).state.current_temp,
            crate::protocol::volcano_laws::two(data@),
        ),
        final(d).uuids == old(d).uuids,
        final(d).characteristics == old(d).characteristics,
{
    if data@.len() >= 2 {
        crate::protocol::volcano_laws::lemma_two(data@);
        crate::utils::lemma_of_tenths_error(crate::protocol::volcano_laws::two(data@) as nat);
    }
}

/// What is read and subscribed to is where the device holds it.
pub proof fn law_sources(
    d: Crafty,
    subscribed: Result<u128, StorzError>,
    current: Result<u128, StorzError>,
    target: Result<u128, StorzError>,
    register: Result<u128, StorzError>,
)
    requires
        call_ensures(Crafty::subscription, (&d,), subscribed),
        call_ensures(Crafty::current_temperature_source, (&d,), current),
        call_ensures(Crafty::target_temperature_source, (&d,), target),
        call_ensures(Crafty::project_register_source, (&d,), register),
    ensures
        subscribed is Ok <==> d.characteristics@.contains(d.uuids.current_temp_changed),
        subscribed matches Ok(uuid) ==> uuid == d.uuids.current_temp_changed,
        current is Ok <==> d.characteristics@.contains(d.uuids.current_temp_changed),
        current matches Ok(uuid) ==> uuid == d.uuids.current_temp_changed,
        target is Ok <==> d.characteristics@.contains(d.uuids.write_temp),
        target matches Ok(uuid) ==> uuid == d.uuids.write_temp,
        register is Ok <==> d.characteristics@.contains(d.uuids.project_register),
        register matches Ok(uuid) ==> uuid == d.uuids.project_register,
        subscribed matches Err(e) ==> e@ == unknown(d.uuids.current_temp_changed),
        current matches Err(e) ==> e@ == unknown(d.uuids.current_temp_changed),
        target matches Err(e) ==> e@ == unknown(d.uuids.write_temp),
        register matches Err(e) ==> e@ == unknown(d.uuids.project_register),
{
}

/// Every piece of information comes from its own read, and a read that failed, or whose text is
/// not UTF-8, leaves out its own piece alone.
pub proof fn law_information(
    serial: Option<Vec<u8>>,
    firmware: Option<Vec<u8>>,
    firmware_ble: Option<Vec<u8>>,
    hours: Option<Vec<u8>>,
    minutes: Option<Vec<u8>>,
    r: DeviceInfo,
)
    requires
        call_ensures(Crafty::device_info, (serial, firmware, firmware_ble, hours, minutes), r),
    ensures
        crate::protocol::volcano_laws::is_text(serial, r@.serial_number),
        crate::protocol::volcano_laws::is_text(firmware, r@.firmware_version),
        crate::protocol::volcano_laws::is_text(firmware_ble, r@.firmware_ble_version),
        crate::protocol::volcano_laws::is_count(hours, r@.hours_of_heating),
        crate::protocol::volcano_laws::is_count(minutes, r@.minutes_of_heating),
        r@.color_index is None,
        r@.heater_runtime_minutes is None,
        r@.battery_charging_time_minutes is None,
{
    if hours is Some && hours->0@.len() >= 2 {
        crate::protocol::volcano_laws::lemma_two(hours->0@);
    }
    if minutes is Some && minutes->0@.len() >= 2 {
        crate::protocol::volcano_laws::lemma_two(minutes->0@);
    }
}

/// There is no pump.
pub proof fn law_no_pump(
    d: Crafty,
    on: Result<CharacteristicWrite, StorzError>,
    off: Result<CharacteristicWrite, StorzError>,
)
    requires
        call_ensures(Crafty::pump_on, (&d,), on),
        call_ensures(Crafty::pump_off, (&d,), off),
    ensures
        on matches Err(e) && e@ == crate::error::unsupported("Crafty"@, "pump_on"@),
        off matches Err(e) && e@ == crate::error::unsupported("Crafty"@, "pump_off"@),
{
}

} // verus!
