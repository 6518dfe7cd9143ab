//! What commands do to a Venty or Veazy, and what its notifications tell.
use crate::device::DeviceModel;
use crate::device::DeviceSettings;
use crate::device::HeaterMode;
use crate::error::StorzError;
use crate::gatt::CharacteristicWrite;
use crate::protocol::venty::Venty;
use crate::single::Single;
use vstd::arithmetic::power2::pow2;
use vstd::prelude::*;

verus! {

/// The bits of a byte, the lowest first.
pub open spec fn bits(b: u8) -> Seq<bool> {
    seq![
        b % 2 == 1,
        b / 2 % 2 == 1,
        b / 4 % 2 == 1,
        b / 8 % 2 == 1,
        b / 16 % 2 == 1,
        b / 32 % 2 == 1,
        b / 64 % 2 == 1,
        b / 128 % 2 == 1,
    ]
}

/// A Venty or Veazy as its commands see it.
pub struct Handheld {
    /// Target in tenths of a degree.
    pub target: int,
    pub boost: u8,
    pub super_boost: u8,
    /// Seconds until it switches itself off.
    pub timer: int,
    pub mode: u8,
    /// The switches of the settings byte, the lowest bit first.
    pub settings: Seq<bool>,
    /// The switches of the second settings byte.
    pub more: Seq<bool>,
    pub brightness: u8,
    pub vibration: u8,
    pub boost_timeout: u8,
    /// It shows where it is.
    pub calling: bool,
}

/// Switches after a byte was written to them, of which only the bits in the mask count.
pub open spec fn merged(before: Seq<bool>, value: u8, mask: u8) -> Seq<bool> {
    Seq::new(
        8,
        |i: int|
            if bits(mask)[i] {
                bits(value)[i]
            } else {
                before[i]
            },
    )
}

/// A device takes over from a command only the fields whose bit in the mask, the second byte,
/// is set.
pub open spec fn obeyed(h: Handheld, bytes: Seq<u8>) -> Handheld {
    let fields = bits(bytes[1]);
    if bytes.len() == 20 && bytes[0] == 0x01 {
        Handheld {
            target: if fields[1] {
                bytes[4] + 256 * bytes[5]
            } else {
                h.target
            },
            boost: if fields[2] {
                bytes[6]
            } else {
                h.boost
            },
            super_boost: if fields[3] {
                bytes[7]
            } else {
                h.super_boost
            },
            timer: if fields[4] {
                bytes[9] + 256 * bytes[10]
            } else {
                h.timer
            },
            mode: if fields[5] {
                bytes[11]
            } else {
                h.mode
            },
            settings: if fields[7] {
                merged(h.settings, bytes[14], bytes[15])
            } else {
                h.settings
            },
            more: if fields[7] {
                merged(h.more, bytes[16], bytes[17])
            } else {
                h.more
            },
            ..h
        }
    } else if bytes.len() == 7 && bytes[0] == 0x06 {
        Handheld {
            brightness: if fields[0] {
                bytes[2]
            } else {
                h.brightness
            },
            vibration: if fields[3] {
                bytes[5]
            } else {
                h.vibration
            },
            boost_timeout: if fields[4] {
                bytes[6]
            } else {
                h.boost_timeout
            },
            ..h
        }
    } else if bytes.len() == 20 && bytes[0] == 0x0d && fields[0] {
        Handheld { calling: true, ..h }
    } else {
        h
    }
}

/// The outcome of an operation brings the model `h` to `after`: it is a command to the control
/// characteristic, or an error where the device has none.
pub open spec fn brings(
    d: Venty,
    r: Result<CharacteristicWrite, StorzError>,
    h: Handheld,
    after: Handheld,
) -> bool {
    if d.characteristics@.contains(d.control) {
        r matches Ok(w) && w.uuid == d.control && obeyed(h, w.bytes@) == after
    } else {
        r matches Err(e) && e@ == crate::error::Failure::ParseError(
            crate::error::DetailView::Text("Venty control characteristic not found"@),
        )
    }
}

/// The whole number of degrees that a byte can hold which is nearest to a temperature; 0 for
/// what is no number or below.
pub open spec fn nearest_degrees(celsius: Single, degrees: int) -> bool {
    let u = pow2(149) as int;
    if celsius.is_nan() || celsius.negative() {
        degrees == 0
    } else if celsius.is_infinite() || celsius.units() >= 255 * u {
        degrees == 255
    } else {
        0 <= degrees <= 255 && 2 * (degrees * u - celsius.units()) <= u && 2 * (celsius.units()
            - degrees * u) < u
    }
}

proof fn lemma_nearest_degrees(celsius: Single)
    ensures
        nearest_degrees(celsius, celsius.saturated(255) as int),
        celsius.saturated(255) <= 255,
{
    let u = pow2(149) as int;
    let n = celsius.units() as int;
    vstd::arithmetic::power2::lemma_pow2_pos(149);
    vstd::arithmetic::power2::lemma_pow2_adds(1, 149);
    vstd::arithmetic::power2::lemma2_to64();
    let w = (2 * n + u) / (2 * u);
    vstd::arithmetic::div_mod::lemma_fundamental_div_mod(2 * n + u, 2 * u);
    vstd::arithmetic::div_mod::lemma_mod_bound(2 * n + u, 2 * u);
    assert(2 * u * w == 2 * (w * u)) by (nonlinear_arith);
    if !celsius.is_nan() && !celsius.negative() && !celsius.is_infinite() {
        assert(celsius.nearest_whole() == w);
        if w > 255 {
            assert(w * u >= 256 * u) by (nonlinear_arith)
                requires
                    w >= 256,
                    u > 0,
            ;
            assert(n >= 255 * u);
        } else if n >= 255 * u {
            assert(w >= 255) by (nonlinear_arith)
                requires
                    2 * (w * u) > 2 * n + u - 2 * u,
                    n >= 255 * u,
                    u > 0,
            ;
        }
    }
}

/// The bytes of a command of the status kind.
proof fn lemma_command(mask: u8, a: (usize, u8), b: (usize, u8))
    requires
        2 <= a.0 < 20,
        2 <= b.0 < 20,
        a.0 != b.0,
    ensures
        ({
            let one = crate::utils::command(0x01, mask, seq![a]);
            let two = crate::utils::command(0x01, mask, seq![a, b]);
            &&& one.len() == 20 && two.len() == 20
            &&& one[0] == 0x01 && two[0] == 0x01
            &&& one[1] == mask && two[1] == mask
            &&& one[a.0 as int] == a.1 && two[a.0 as int] == a.1 && two[b.0 as int] == b.1
            &&& forall|i: int| 2 <= i < 20 && i != a.0 ==> #[trigger] one[i] == 0
            &&& forall|i: int| 2 <= i < 20 && i != a.0 && i != b.0 ==> #[trigger] two[i] == 0
        }),
{
    reveal_with_fuel(crate::utils::command, 3);
    assert(seq![a, b].drop_last() == seq![a]);
    assert(seq![a].drop_last() == Seq::<(usize, u8)>::empty());
}

/// The target command sets the target alone, in tenths of a degree. From 40 to 230 degrees these
/// are the nearest tenths, up to the rounding of one multiplication.
pub proof fn law_target_is_set(
    d: Venty,
    celsius: Single,
    r: Result<CharacteristicWrite, StorzError>,
    h: Handheld,
)
    requires
        call_ensures(Venty::set_target_temperature, (&d, celsius), r),
    ensures
        brings(d, r, h, Handheld { target: crate::utils::tenths(celsius, 0xffff) as int, ..h }),
        r is Ok && celsius.is_finite() && 40 * pow2(149) <= celsius.signed_units() <= 230
            * pow2(149) ==> {
            let tenths = obeyed(h, r->Ok_0.bytes@).target;
            &&& 400 <= tenths <= 2300
            &&& 2 * (10 * celsius.signed_units() - tenths * pow2(149)) <= pow2(149) + pow2(137)
            &&& 2 * (tenths * pow2(149) - 10 * celsius.signed_units()) <= pow2(149) + pow2(137)
        },
{
    crate::utils::law_range(celsius);
    if crate::utils::in_range(celsius) {
        crate::utils::law_tenths_nearest(celsius, 0xffff);
    }
    let raw = crate::utils::tenths(celsius, 0xffff);
    lemma_command(0x02, (4usize, (raw % 256) as u8), (5usize, (raw / 256) as u8));
}

/// The timer command sets the shutdown timer alone.
pub proof fn law_timer_is_set(
    d: Venty,
    seconds: u16,
    r: Result<CharacteristicWrite, StorzError>,
    h: Handheld,
)
    requires
        call_ensures(Venty::set_auto_shutdown_timer, (&d, seconds), r),
    ensures
        brings(d, r, h, Handheld { timer: seconds as int, ..h }),
{
    lemma_command(0x10, (9usize, (seconds % 256) as u8), (10usize, (seconds / 256) as u8));
}

/// The heater commands set the heater mode alone: 0 off, 1 normal, 2 boost, 3 superboost.
pub proof fn law_heater_is_set(
    d: Venty,
    mode: HeaterMode,
    on: Result<CharacteristicWrite, StorzError>,
    off: Result<CharacteristicWrite, StorzError>,
    set: Result<CharacteristicWrite, StorzError>,
    h: Handheld,
)
    requires
        call_ensures(Venty::heater_on, (&d,), on),
        call_ensures(Venty::heater_off, (&d,), off),
        call_ensures(Venty::set_heater_mode, (&d, mode), set),
    ensures
        brings(d, on, h, Handheld { mode: 1, ..h }),
        brings(d, off, h, Handheld { mode: 0, ..h }),
        mode == HeaterMode::Off ==> brings(d, set, h, Handheld { mode: 0, ..h }),
        mode == HeaterMode::Normal ==> brings(d, set, h, Handheld { mode: 1, ..h }),
        mode == HeaterMode::Boost ==> brings(d, set, h, Handheld { mode: 2, ..h }),
        mode == HeaterMode::SuperBoost ==> brings(d, set, h, Handheld { mode: 3, ..h }),
{
    lemma_command(0x20, (11usize, 0u8), (2usize, 0u8));
    lemma_command(0x20, (11usize, 1u8), (2usize, 0u8));
    lemma_command(0x20, (11usize, 2u8), (2usize, 0u8));
    lemma_command(0x20, (11usize, 3u8), (2usize, 0u8));
}

/// The boost command sets the boost offset alone, and the superboost command the superboost
/// offset, in the nearest whole degrees.
#[verifier::rlimit(40)]
pub proof fn law_boost_is_set(
    d: Venty,
    celsius: Single,
    boost: Result<CharacteristicWrite, StorzError>,
    super_boost: Result<CharacteristicWrite, StorzError>,
    h: Handheld,
)
    requires
        call_ensures(Venty::set_boost_temperature, (&d, celsius), boost),
        call_ensures(Venty::set_super_boost_temperature, (&d, celsius), super_boost),
    ensures
        exists|degrees: u8| #[trigger]
            nearest_degrees(celsius, degrees as int) && brings(
                d,
                boost,
                h,
                Handheld { boost: degrees, ..h },
            ) && brings(d, super_boost, h, Handheld { super_boost: degrees, ..h }),
        boost matches Ok(w) ==> w.bytes@[0] == 0x01 && w.bytes@[1] == 0x04 && nearest_degrees(
            celsius,
            w.bytes@[6] as int,
        ),
        super_boost matches Ok(w) ==> w.bytes@[0] == 0x01 && w.bytes@[1] == 0x08
            && nearest_degrees(celsius, w.bytes@[7] as int),
{
    let degrees = celsius.saturated(255) as u8;
    lemma_nearest_degrees(celsius);
    lemma_command(0x04, (6usize, degrees), (2usize, 0u8));
    lemma_command(0x08, (7usize, degrees), (2usize, 0u8));
    assert(nearest_degrees(celsius, degrees as int));
}

/// The bytes of a settings command, and what is left of switches that no bit was set for.
proof fn lemma_setting(value: u8, mask: u8, h: Handheld)
    requires
        h.settings.len() == 8,
        h.more.len() == 8,
    ensures
        obeyed(h, crate::protocol::venty::setting_command(value, mask)) == (Handheld {
            settings: merged(h.settings, value, mask),
            ..h
        }),
        obeyed(h, crate::protocol::venty::setting2_command(value, mask)) == (Handheld {
            more: merged(h.more, value, mask),
            ..h
        }),
{
    lemma_command(0x80, (14usize, value), (15usize, mask));
    lemma_command(0x80, (16usize, value), (17usize, mask));
    assert(merged(h.settings, 0, 0) == h.settings);
    assert(merged(h.more, 0, 0) == h.more);
}

/// The unit command sets bit 0 of the settings byte, which means Fahrenheit, and nothing else; the
/// factory reset sets bit 2.
#[verifier::rlimit(40)]
pub proof fn law_unit_and_reset_are_set(
    d: Venty,
    on: bool,
    unit: Result<CharacteristicWrite, StorzError>,
    reset: Result<CharacteristicWrite, StorzError>,
    h: Handheld,
)
    requires
        h.settings.len() == 8,
        h.more.len() == 8,
        call_ensures(Venty::set_temperature_unit, (&d, on), unit),
        call_ensures(Venty::factory_reset, (&d,), reset),
    ensures
        brings(d, unit, h, Handheld { settings: h.settings.update(0, !on), ..h }),
        brings(d, reset, h, Handheld { settings: h.settings.update(2, true), ..h }),
{
    lemma_setting(0x00, 0x01, h);
    lemma_setting(0x01, 0x01, h);
    lemma_setting(0x04, 0x04, h);
    assert(merged(h.settings, 0x00, 0x01) == h.settings.update(0, false));
    assert(merged(h.settings, 0x01, 0x01) == h.settings.update(0, true));
    assert(merged(h.settings, 0x04, 0x04) == h.settings.update(2, true));
}

/// The charge current optimization is bit 3 of the settings byte and the charge voltage limit is
/// bit 5, and each command sets its own bit alone.
#[verifier::rlimit(40)]
pub proof fn law_charge_switches_are_set(
    d: Venty,
    on: bool,
    current: Result<CharacteristicWrite, StorzError>,
    voltage: Result<CharacteristicWrite, StorzError>,
    h: Handheld,
)
    requires
        h.settings.len() == 8,
        h.more.len() == 8,
        call_ensures(Venty::set_charge_current_optimization, (&d, on), current),
        call_ensures(Venty::set_charge_voltage_limit, (&d, on), voltage),
    ensures
        brings(d, current, h, Handheld { settings: h.settings.update(3, on), ..h }),
        brings(d, voltage, h, Handheld { settings: h.settings.update(5, on), ..h }),
{
    lemma_setting(0x00, 0x08, h);
    lemma_setting(0x08, 0x08, h);
    lemma_setting(0x00, 0x20, h);
    lemma_setting(0x20, 0x20, h);
    assert(merged(h.settings, 0x00, 0x08) == h.settings.update(3, false));
    assert(merged(h.settings, 0x08, 0x08) == h.settings.update(3, true));
    assert(merged(h.settings, 0x00, 0x20) == h.settings.update(5, false));
    assert(merged(h.settings, 0x20, 0x20) == h.settings.update(5, true));
}

/// The switch for showing boost is bit 6 of the settings byte, which the Veazy has the other way
/// round; permanent Bluetooth is bit 0 of the second settings byte.
#[verifier::rlimit(40)]
pub proof fn law_more_switches_are_set(
    d: Venty,
    on: bool,
    shown: Result<CharacteristicWrite, StorzError>,
    bluetooth: Result<CharacteristicWrite, StorzError>,
    h: Handheld,
)
    requires
        h.settings.len() == 8,
        h.more.len() == 8,
        call_ensures(Venty::set_boost_visualization, (&d, on), shown),
        call_ensures(Venty::set_permanent_bluetooth, (&d, on), bluetooth),
    ensures
        d.model == DeviceModel::Veazy ==> brings(
            d,
            shown,
            h,
            Handheld { settings: h.settings.update(6, !on), ..h },
        ),
        d.model != DeviceModel::Veazy ==> brings(
            d,
            shown,
            h,
            Handheld { settings: h.settings.update(6, on), ..h },
        ),
        brings(d, bluetooth, h, Handheld { more: h.more.update(0, on), ..h }),
{
    lemma_setting(0x00, 0x40, h);
    lemma_setting(0x40, 0x40, h);
    lemma_setting(0x00, 0x01, h);
    lemma_setting(0x01, 0x01, h);
    assert(merged(h.settings, 0x00, 0x40) == h.settings.update(6, false));
    assert(merged(h.settings, 0x40, 0x40) == h.settings.update(6, true));
    assert(merged(h.more, 0x00, 0x01) == h.more.update(0, false));
    assert(merged(h.more, 0x01, 0x01) == h.more.update(0, true));
}

/// The short commands set vibration, the low byte of the brightness, or the boost timeout alone,
/// and one command makes the device show where it is.
pub proof fn law_short_commands(
    d: Venty,
    on: bool,
    value: u16,
    seconds: u8,
    vibration: Result<CharacteristicWrite, StorzError>,
    brightness: Result<CharacteristicWrite, StorzError>,
    timeout: Result<CharacteristicWrite, StorzError>,
    find: Result<CharacteristicWrite, StorzError>,
    h: Handheld,
)
    requires
        call_ensures(Venty::set_vibration, (&d, on), vibration),
        call_ensures(Venty::set_brightness, (&d, value), brightness),
        call_ensures(Venty::set_boost_timeout, (&d, seconds), timeout),
        call_ensures(Venty::find_my_device, (&d,), find),
    ensures
        brings(
            d,
            vibration,
            h,
            Handheld {
                vibration: if on {
                    1
                } else {
                    0
                },
                ..h
            },
        ),
        brings(d, brightness, h, Handheld { brightness: (value % 256) as u8, ..h }),
        brings(d, timeout, h, Handheld { boost_timeout: seconds, ..h }),
        brings(d, find, h, Handheld { calling: true, ..h }),
{
}

/// The bits of a byte by masks and by arithmetic.
proof fn lemma_bits(b: u8)
    by (bit_vector)
    ensures
        (b & 0x01 == 0) == (b % 2 == 0),
        (b & 0x02 == 0) == (b / 2 % 2 == 0),
        (b & 0x08 == 0) == (b / 8 % 2 == 0),
        (b & 0x20 == 0) == (b / 32 % 2 == 0),
        (b & 0x40 == 0) == (b / 64 % 2 == 0),
{
}

/// The number in two bytes of a run.
proof fn lemma_pair(data: Seq<u8>, at: int)
    requires
        0 <= at,
        at + 2 <= data.len(),
    ensures
        crate::utils::little_endian(data.subrange(at, at + 2)) == data[at] + 256 * data[at + 1],
{
    let s = data.subrange(at, at + 2);
    reveal_with_fuel(crate::utils::little_endian, 3);
    assert(s.skip(1).skip(1) == Seq::<u8>::empty());
}

/// The number in three bytes of a run.
proof fn lemma_triple(data: Seq<u8>, at: int)
    requires
        0 <= at,
        at + 3 <= data.len(),
    ensures
        crate::utils::little_endian(data.subrange(at, at + 3)) == data[at] + 256 * data[at + 1]
            + 65536 * data[at + 2],
{
    let s = data.subrange(at, at + 3);
    reveal_with_fuel(crate::utils::little_endian, 4);
    assert(s.skip(1).skip(1).skip(1) == Seq::<u8>::empty());
}

/// A status notification is one that starts with 1 and has 15 bytes or more. It is told of, and
/// it alone changes the state.
pub proof fn law_status_changes_the_state(d: &mut Venty, data: &[u8], r: bool)
    requires
        call_ensures(Venty::handle_notification, (d, data), r),
    ensures
        r <==> data@.len() >= 15 && data@[0] == 1,
        !r ==> final(d).state == old(d).state,
        r ==> final(d).device_info@ == old(d).device_info@,
        final(d).model == old(d).model,
        final(d).control == old(d).control,
        final(d).characteristics@ == old(d).characteristics@,
{
}

/// The temperatures in a status notification: the target in tenths of a degree in bytes 4 and 5,
/// the boost offsets in whole degrees in bytes 6 and 7. The measured temperature stays.
pub proof fn law_status_temperatures(d: &mut Venty, data: &[u8], r: bool)
    requires
        call_ensures(Venty::handle_notification, (d, data), r),
        r,
    ensures
        ({
            let s = final(d).state;
            let tenths = data@[4] + 256 * data@[5];
            let target = s.target_temp->0;
            &&& s.target_temp is Some && s.boost_temp is Some && s.super_boost_temp is Some
            &&& target.is_finite()
            &&& 10 * target.signed_units() - tenths * pow2(149) <= 10 * pow2(137)
            &&& tenths * pow2(149) - 10 * target.signed_units() <= 10 * pow2(137)
            &&& s.boost_temp->0.is_finite()
            &&& s.boost_temp->0.signed_units() == data@[6] * pow2(149)
            &&& s.super_boost_temp->0.is_finite()
            &&& s.super_boost_temp->0.signed_units() == data@[7] * pow2(149)
            &&& s.current_temp == old(d).state.current_temp
        }),
{
    lemma_pair(data@, 4);
    crate::utils::lemma_of_tenths_error((data@[4] + 256 * data@[5]) as nat);
    crate::accuracy::lemma_whole_exact(data@[6] as nat);
    crate::accuracy::lemma_whole_exact(data@[7] as nat);
}

/// The heater in a status notification is byte 11: 1 normal, 2 boost, 3 superboost, and off
/// whatever else it is. There is no pump.
pub proof fn law_status_heater(d: &mut Venty, data: &[u8], r: bool)
    requires
        call_ensures(Venty::handle_notification, (d, data), r),
        r,
    ensures
        ({
            let s = final(d).state;
            &&& s.heater_on == (1 <= data@[11] <= 3)
            &&& s.heater_mode is Some
            &&& s.heater_mode == Some(HeaterMode::Normal) <==> data@[11] == 1
            &&& s.heater_mode == Some(HeaterMode::Boost) <==> data@[11] == 2
            &&& s.heater_mode == Some(HeaterMode::SuperBoost) <==> data@[11] == 3
            &&& !s.pump_on
            &&& s.fan_on == old(d).state.fan_on
            &&& s.raw_activity == old(d).state.raw_activity
        }),
{
}

/// The settings in a status notification: the battery in byte 8, the timer in bytes 9 and 10,
/// charging where byte 13 is not zero, and the switches of byte 14. Bit 0 of byte 16 is permanent
/// Bluetooth, which stays as it was in a notification without that byte.
pub proof fn law_status_settings(d: &mut Venty, data: &[u8], r: bool)
    requires
        call_ensures(Venty::handle_notification, (d, data), r),
        r,
    ensures
        ({
            let s = final(d).state.settings->0;
            let flags = bits(data@[14]);
            &&& final(d).state.settings is Some
            &&& s.battery_level == Some(data@[8])
            &&& s.auto_shutdown_seconds is Some
            &&& s.auto_shutdown_seconds->0 == data@[9] + 256 * data@[10]
            &&& s.is_charging == (data@[13] != 0)
            &&& s.is_celsius == !flags[0]
            &&& s.setpoint_reached == flags[1]
            &&& final(d).state.setpoint_reached == flags[1]
            &&& s.charge_current_optimization == flags[3]
            &&& s.charge_voltage_limit == flags[5]
            &&& s.boost_visualization == flags[6]
            &&& s.vibration == flags[6]
            &&& data@.len() >= 17 ==> s.permanent_bluetooth == bits(data@[16])[0]
            &&& data@.len() < 17 ==> s.permanent_bluetooth == (old(d).state.settings matches Some(
                known,
            ) && known.permanent_bluetooth)
        }),
{
    lemma_pair(data@, 9);
    lemma_bits(data@[14]);
    if data@.len() >= 17 {
        lemma_bits(data@[16]);
    }
}

/// Whether the device charges depends on byte 13 of a status notification alone, whatever was
/// known before and whatever the other bytes hold.
pub proof fn law_charging_is_byte_13(
    d: &mut Venty,
    data: &[u8],
    r: bool,
    e: &mut Venty,
    other: &[u8],
    q: bool,
    told: Option<bool>,
)
    requires
        call_ensures(Venty::handle_notification, (d, data), r),
        call_ensures(Venty::handle_notification, (e, other), q),
        r && q,
        data@[13] == other@[13],
        call_ensures(crate::device::DeviceState::get_is_charging, (&final(d).state,), told),
    ensures
        final(d).state.settings->0.is_charging == final(e).state.settings->0.is_charging,
        told == Some(data@[13] > 0),
{
}

/// What a status notification tells is what the device is then said to be.
pub proof fn law_told_is_answered(
    d: Venty,
    current: Result<Single, StorzError>,
    target: Result<Single, StorzError>,
    settings: Result<DeviceSettings, StorzError>,
    battery: Option<u8>,
)
    requires
        call_ensures(Venty::get_current_temperature, (&d,), current),
        call_ensures(Venty::get_target_temperature, (&d,), target),
        call_ensures(Venty::get_settings, (&d,), settings),
        call_ensures(crate::device::DeviceState::get_battery_level, (&d.state,), battery),
    ensures
        match d.state.current_temp {
            Some(t) => current matches Ok(v) && v == t,
            None => current matches Err(e) && e@ == crate::error::unparsed(
                "Current temperature not yet available from device notifications"@,
            ),
        },
        match d.state.target_temp {
            Some(t) => target matches Ok(v) && v == t,
            None => target matches Err(e) && e@ == crate::error::unparsed(
                "Target temperature not yet available from device notifications"@,
            ),
        },
        match d.state.settings {
            Some(s) => settings matches Ok(v) && v == s && battery == s.battery_level,
            None => settings matches Err(e) && e@ == crate::error::unparsed(
                "Settings not yet available from device notifications"@,
            ) && battery is None,
        },
{
}

/// The other notifications tell of the device: of two versions in four numbers each, of two times
/// in minutes, or of the serial number and the colour.
pub proof fn law_information_is_taken(d: &mut Venty, data: &[u8], r: bool)
    requires
        call_ensures(Venty::handle_notification, (d, data), r),
    ensures
        ({
            let before = old(d).device_info@;
            let after = final(d).device_info@;
            let dot = seq!['.'];
            &&& data@.len() >= 9 && data@[0] == 2 ==> after == (crate::device::InfoView {
                firmware_version: Some(
                    crate::text::decimal(data@[1] as nat) + dot + crate::text::decimal(
                        data@[2] as nat,
                    ) + dot + crate::text::decimal(data@[3] as nat) + dot + crate::text::decimal(
                        data@[4] as nat,
                    ),
                ),
                firmware_ble_version: Some(
                    crate::text::decimal(data@[5] as nat) + dot + crate::text::decimal(
                        data@[6] as nat,
                    ) + dot + crate::text::decimal(data@[7] as nat) + dot + crate::text::decimal(
                        data@[8] as nat,
                    ),
                ),
                ..before
            })
            &&& data@.len() >= 7 && data@[0] == 4 ==> {
                &&& after == (crate::device::InfoView {
                    heater_runtime_minutes: after.heater_runtime_minutes,
                    battery_charging_time_minutes: after.battery_charging_time_minutes,
                    ..before
                })
                &&& after.heater_runtime_minutes is Some
                &&& after.heater_runtime_minutes->0 == data@[1] + 256 * data@[2] + 65536 * data@[3]
                &&& after.battery_charging_time_minutes is Some
                &&& after.battery_charging_time_minutes->0 == data@[4] + 256 * data@[5] + 65536
                    * data@[6]
            }
            &&& data@.len() >= 19 && data@[0] == 5 ==> after == (crate::device::InfoView {
                serial_number: after.serial_number,
                color_index: Some(data@[18]),
                ..before
            })
            &&& !(data@.len() >= 9 && data@[0] == 2) && !(data@.len() >= 7 && data@[0] == 4) && !(
            data@.len() >= 19 && data@[0] == 5) ==> after == before
        }),
{
    if data@.len() >= 9 && data@[0] == 2 {
        let b = data@;
        let dot = seq!['.'];
        assert(crate::protocol::venty::dotted(b[1], b[2], b[3], b[4]) == crate::text::decimal(
            b[1] as nat,
        ) + dot + crate::text::decimal(b[2] as nat) + dot + crate::text::decimal(b[3] as nat) + dot
            + crate::text::decimal(b[4] as nat));
        assert(crate::protocol::venty::dotted(b[5], b[6], b[7], b[8]) == crate::text::decimal(
            b[5] as nat,
        ) + dot + crate::text::decimal(b[6] as nat) + dot + crate::text::decimal(b[7] as nat) + dot
            + crate::text::decimal(b[8] as nat));
    }
    if data@.len() >= 7 && data@[0] == 4 {
        lemma_triple(data@, 1);
        lemma_triple(data@, 4);
    }
}

/// A new device is of the model and has the characteristics that it was made with, and nothing is
/// known of it. It is ready where it has its control characteristic.
pub proof fn law_new(
    model: DeviceModel,
    control: u128,
    list: Vec<u128>,
    d: Venty,
    found: Result<u128, StorzError>,
)
    requires
        call_ensures(Venty::new, (model, control, list), d),
        call_ensures(Venty::control_characteristic, (&d,), found),
    ensures
        d.model == model && d.control == control && d.characteristics@ == list@,
        d.state.current_temp is None && d.state.target_temp is None && d.state.settings is None
            && d.state.heater_mode is None && !d.state.heater_on && !d.state.pump_on,
        d.device_info@.serial_number is None && d.device_info@.firmware_version is None,
        found is Ok <==> list@.contains(control),
        found matches Ok(uuid) ==> uuid == control,
        found matches Err(e) ==> e@ == crate::error::unparsed(
            "Venty control characteristic not found"@,
        ),
{
}

/// The requests after connecting and for device information are bare commands to the control
/// characteristic, in this order.
pub proof fn law_requests(
    d: Venty,
    init: Result<Vec<CharacteristicWrite>, StorzError>,
    info: Result<Vec<CharacteristicWrite>, StorzError>,
    i: int,
)
    requires
        call_ensures(Venty::init, (&d,), init),
        call_ensures(Venty::get_device_info, (&d,), info),
        d.characteristics@.contains(d.control),
    ensures
        init matches Ok(list) && list@.len() == 4 && (0 <= i < 4 ==> list@[i].uuid == d.control
            && list@[i].bytes@ == seq![seq![2u8, 0x1du8, 1u8, 4u8][i]] + Seq::new(19, |k: int| 0u8)),
        info matches Ok(list) && list@.len() == 3 && (0 <= i < 3 ==> list@[i].uuid == d.control
            && list@[i].bytes@ == seq![seq![2u8, 4u8, 5u8][i]] + Seq::new(19, |k: int| 0u8)),
{
    assert forall|c: u8| #[trigger]
        crate::utils::command(c, 0, Seq::empty()) == seq![c] + Seq::new(19, |k: int| 0u8) by {
    }
}

/// There is no pump, and an operation on it is refused by the name of the device.
pub proof fn law_no_pump(
    d: Venty,
    on: Result<CharacteristicWrite, StorzError>,
    off: Result<CharacteristicWrite, StorzError>,
)
    requires
        call_ensures(Venty::pump_on, (&d,), on),
        call_ensures(Venty::pump_off, (&d,), off),
    ensures
        on matches Err(e) && (d.model == DeviceModel::Venty ==> e@ == crate::error::unsupported(
            "Venty"@,
            "pump_on"@,
        )) && (d.model == DeviceModel::Veazy ==> e@ == crate::error::unsupported(
            "Veazy"@,
            "pump_on"@,
        )),
        off matches Err(e) && (d.model == DeviceModel::Venty ==> e@ == crate::error::unsupported(
            "Venty"@,
            "pump_off"@,
        )) && (d.model == DeviceModel::Veazy ==> e@ == crate::error::unsupported(
            "Veazy"@,
            "pump_off"@,
        )),
{
}

} // verus!
