//! What writes do to a Volcano Hybrid, and what its notifications tell.
use crate::device::DeviceInfo;
use crate::device::DeviceSettings;
use crate::device::DeviceState;
use crate::error::StorzError;
use crate::gatt::CharacteristicWrite;
use crate::protocol::volcano::Subscription;
use crate::protocol::volcano::VolcanoHybrid;
use crate::single::Single;
use crate::uuids::VolcanoUuids;
use vstd::arithmetic::power2::pow2;
use vstd::prelude::*;

verus! {

/// The bits of a number of two bytes, the lowest first.
pub open spec fn bits16(n: int) -> Seq<bool> {
    seq![
        n % 2 == 1,
        n / 2 % 2 == 1,
        n / 4 % 2 == 1,
        n / 8 % 2 == 1,
        n / 16 % 2 == 1,
        n / 32 % 2 == 1,
        n / 64 % 2 == 1,
        n / 128 % 2 == 1,
        n / 256 % 2 == 1,
        n / 512 % 2 == 1,
        n / 1024 % 2 == 1,
        n / 2048 % 2 == 1,
        n / 4096 % 2 == 1,
        n / 8192 % 2 == 1,
        n / 16384 % 2 == 1,
        n / 32768 % 2 == 1,
    ]
}

/// The number in the first two bytes.
pub open spec fn two(data: Seq<u8>) -> int {
    data[0] + 256 * data[1]
}

/// The number in the first four bytes.
pub open spec fn four(data: Seq<u8>) -> int {
    data[0] + 256 * data[1] + 65536 * data[2] + 16777216 * data[3]
}

/// A Volcano Hybrid as writes to its characteristics see it.
pub struct Desktop {
    pub heater: bool,
    pub pump: bool,
    /// Target in tenths of a degree.
    pub target: int,
    pub brightness: int,
    /// Seconds until it switches itself off.
    pub shutoff: int,
    /// The switches of the display register, the lowest bit first.
    pub display: Seq<bool>,
    /// The switches of the vibration register.
    pub vibration: Seq<bool>,
}

/// A register after a write: the low two bytes select switches, which go on, or off where the
/// third byte is 1.
pub open spec fn switched(before: Seq<bool>, bytes: Seq<u8>) -> Seq<bool> {
    Seq::new(
        16,
        |i: int|
            if bits16(two(bytes))[i] {
                bytes[2] != 1
            } else {
                before[i]
            },
    )
}

/// What a write does: switching on and off have characteristics of their own, values are numbers
/// with the low byte first, and registers select their switches.
pub open spec fn obeyed(m: Desktop, u: VolcanoUuids, uuid: u128, bytes: Seq<u8>) -> Desktop {
    if uuid == u.heater_on {
        Desktop { heater: true, ..m }
    } else if uuid == u.heater_off {
        Desktop { heater: false, ..m }
    } else if uuid == u.pump_on {
        Desktop { pump: true, ..m }
    } else if uuid == u.pump_off {
        Desktop { pump: false, ..m }
    } else if uuid == u.target_temp && bytes.len() == 4 {
        Desktop { target: four(bytes), ..m }
    } else if uuid == u.brightness && bytes.len() == 2 {
        Desktop { brightness: two(bytes), ..m }
    } else if uuid == u.shutoff_time && bytes.len() == 2 {
        Desktop { shutoff: two(bytes), ..m }
    } else if uuid == u.display && bytes.len() == 4 {
        Desktop { display: switched(m.display, bytes), ..m }
    } else if uuid == u.vibration && bytes.len() == 4 {
        Desktop { vibration: switched(m.vibration, bytes), ..m }
    } else {
        m
    }
}

/// The characteristics that are written to.
pub open spec fn written(u: VolcanoUuids) -> Seq<u128> {
    seq![
        u.heater_on,
        u.heater_off,
        u.pump_on,
        u.pump_off,
        u.target_temp,
        u.brightness,
        u.shutoff_time,
        u.display,
        u.vibration,
    ]
}

proof fn lemma_apart(u: VolcanoUuids)
    requires
        written(u).no_duplicates(),
    ensures
        forall|i: int, j: int| 0 <= i < j < 9 ==> #[trigger] written(u)[i] != #[trigger] written(u)[j],
        written(u)[0] == u.heater_on,
        written(u)[1] == u.heater_off,
        written(u)[2] == u.pump_on,
        written(u)[3] == u.pump_off,
        written(u)[4] == u.target_temp,
        written(u)[5] == u.brightness,
        written(u)[6] == u.shutoff_time,
        written(u)[7] == u.display,
        written(u)[8] == u.vibration,
{
}

/// The outcome of an operation that needs the characteristic `uuid` brings the model `m` to
/// `after`; it is an error exactly where the device lacks that characteristic.
pub open spec fn brings(
    d: VolcanoHybrid,
    uuid: u128,
    r: Result<CharacteristicWrite, StorzError>,
    m: Desktop,
    after: Desktop,
) -> bool {
    if d.characteristics@.contains(uuid) {
        r matches Ok(w) && obeyed(m, d.uuids, w.uuid, w.bytes@) == after
    } else {
        r matches Err(e) && e@ == unknown(uuid)
    }
}

/// The error that names a characteristic which the device does not have.
pub open spec fn unknown(uuid: u128) -> crate::error::Failure {
    crate::error::Failure::ParseError(
        crate::error::DetailView::Text(
            "Characteristic "@ + crate::gatt::hyphenated(uuid) + " not found"@,
        ),
    )
}

/// The bytes of a number, one by one.
pub proof fn lemma_number_bytes(n: nat)
    ensures
        n < 0x1_0000 ==> crate::utils::le_seq(n, 2).len() == 2 && two(crate::utils::le_seq(n, 2))
            == n,
        n < 0x1_0000_0000 ==> crate::utils::le_seq(n, 4).len() == 4 && four(
            crate::utils::le_seq(n, 4),
        ) == n,
        n < 0x1_0000 ==> two(crate::utils::le_seq(n, 4)) == n && crate::utils::le_seq(n, 4)[2] == 0,
        0x1_0000 <= n < 0x2_0000 ==> two(crate::utils::le_seq(n, 4)) == n - 0x1_0000
            && crate::utils::le_seq(n, 4)[2] == 1,
{
    reveal_with_fuel(crate::utils::le_seq, 5);
}

/// Switching on and off switches exactly that: the heater or the pump.
pub proof fn law_heater_and_pump(
    d: VolcanoHybrid,
    heater_on: Result<CharacteristicWrite, StorzError>,
    heater_off: Result<CharacteristicWrite, StorzError>,
    pump_on: Result<CharacteristicWrite, StorzError>,
    pump_off: Result<CharacteristicWrite, StorzError>,
    m: Desktop,
)
    requires
        written(d.uuids).no_duplicates(),
        call_ensures(VolcanoHybrid::heater_on, (&d,), heater_on),
        call_ensures(VolcanoHybrid::heater_off, (&d,), heater_off),
        call_ensures(VolcanoHybrid::pump_on, (&d,), pump_on),
        call_ensures(VolcanoHybrid::pump_off, (&d,), pump_off),
    ensures
        brings(d, d.uuids.heater_on, heater_on, m, Desktop { heater: true, ..m }),
        brings(d, d.uuids.heater_off, heater_off, m, Desktop { heater: false, ..m }),
        brings(d, d.uuids.pump_on, pump_on, m, Desktop { pump: true, ..m }),
        brings(d, d.uuids.pump_off, pump_off, m, Desktop { pump: false, ..m }),
        heater_on matches Ok(w) ==> w.bytes@ == seq![0u8],
        heater_off matches Ok(w) ==> w.bytes@ == seq![0u8],
        pump_on matches Ok(w) ==> w.bytes@ == seq![0u8],
        pump_off matches Ok(w) ==> w.bytes@ == seq![0u8],
{
    lemma_apart(d.uuids);
}

/// A target from 40 to 230 degrees is set in the nearest tenths of a degree, up to the rounding
/// of one multiplication, and any other is refused.
pub proof fn law_target(
    d: VolcanoHybrid,
    celsius: Single,
    r: Result<CharacteristicWrite, StorzError>,
    m: Desktop,
)
    requires
        written(d.uuids).no_duplicates(),
        call_ensures(VolcanoHybrid::set_target_temperature, (&d, celsius), r),
    ensures
        r is Ok <==> d.characteristics@.contains(d.uuids.target_temp) && celsius.is_finite() && 40
            * pow2(149) <= celsius.signed_units() <= 230 * pow2(149),
        r matches Ok(w) ==> ({
            let after = obeyed(m, d.uuids, w.uuid, w.bytes@);
            &&& after == (Desktop { target: after.target, ..m })
            &&& w.bytes@.len() == 4 && w.uuid == d.uuids.target_temp
            &&& after.target == four(w.bytes@)
            &&& 400 <= after.target <= 2300
            &&& 2 * (10 * celsius.signed_units() - after.target * pow2(149)) <= pow2(149) + pow2(137)
            &&& 2 * (after.target * pow2(149) - 10 * celsius.signed_units()) <= pow2(149) + pow2(137)
        }),
        !d.characteristics@.contains(d.uuids.target_temp) ==> (r matches Err(e) && e@ == unknown(
            d.uuids.target_temp,
        )),
        d.characteristics@.contains(d.uuids.target_temp) ==> (r matches Err(e) ==> e@
            is ParseError && e@->ParseError_0 == (crate::error::DetailView::OutOfRange { celsius })),
{
    lemma_apart(d.uuids);
    crate::utils::law_range(celsius);
    if crate::utils::in_range(celsius) {
        crate::utils::law_tenths_nearest(celsius, u32::MAX as nat);
        lemma_number_bytes(crate::utils::tenths(celsius, u32::MAX as nat));
    }
}

/// Brightness and shutoff time are set to the very number that was asked for.
pub proof fn law_values(
    d: VolcanoHybrid,
    value: u16,
    brightness: Result<CharacteristicWrite, StorzError>,
    shutoff: Result<CharacteristicWrite, StorzError>,
    timer: Result<CharacteristicWrite, StorzError>,
    m: Desktop,
)
    requires
        written(d.uuids).no_duplicates(),
        call_ensures(VolcanoHybrid::set_brightness, (&d, value), brightness),
        call_ensures(VolcanoHybrid::set_shutoff_time, (&d, value), shutoff),
        call_ensures(VolcanoHybrid::set_auto_shutdown_timer, (&d, value), timer),
    ensures
        brings(d, d.uuids.brightness, brightness, m, Desktop { brightness: value as int, ..m }),
        brings(d, d.uuids.shutoff_time, shutoff, m, Desktop { shutoff: value as int, ..m }),
        brings(d, d.uuids.shutoff_time, timer, m, Desktop { shutoff: value as int, ..m }),
{
    lemma_apart(d.uuids);
    lemma_number_bytes(value as nat);
}

/// A register write for one flag.
proof fn lemma_register(before: Seq<bool>, flag: u32, on: bool)
    requires
        before.len() == 16,
        flag == 0x0200 || flag == 0x0400 || flag == 0x1000,
    ensures
        ({
            let bytes = crate::protocol::volcano::flag_write(flag, on);
            &&& bytes.len() == 4
            &&& flag == 0x0200 ==> switched(before, bytes) == before.update(9, on)
            &&& flag == 0x0400 ==> switched(before, bytes) == before.update(10, on)
            &&& flag == 0x1000 ==> switched(before, bytes) == before.update(12, on)
        }),
{
    let bytes = crate::protocol::volcano::flag_write(flag, on);
    lemma_number_bytes(flag as nat);
    lemma_number_bytes((0x1_0000 + flag) as nat);
    assert(two(bytes) == flag as int);
    assert(bytes[2] == if on {
        0u8
    } else {
        1u8
    });
    assert(bits16(0x0200) == Seq::new(16, |i: int| i == 9));
    assert(bits16(0x0400) == Seq::new(16, |i: int| i == 10));
    assert(bits16(0x1000) == Seq::new(16, |i: int| i == 12));
}

/// The switches: bit 9 of the display register means Fahrenheit, bit 12 keeps the display on while
/// the device cools, and bit 10 of the vibration register is vibration. No other switch changes.
pub proof fn law_switches(
    d: VolcanoHybrid,
    on: bool,
    unit: Result<CharacteristicWrite, StorzError>,
    cooling: Result<CharacteristicWrite, StorzError>,
    vibration: Result<CharacteristicWrite, StorzError>,
    m: Desktop,
)
    requires
        m.display.len() == 16,
        m.vibration.len() == 16,
        written(d.uuids).no_duplicates(),
        call_ensures(VolcanoHybrid::set_temperature_unit, (&d, on), unit),
        call_ensures(VolcanoHybrid::set_display_on_cooling, (&d, on), cooling),
        call_ensures(VolcanoHybrid::set_vibration, (&d, on), vibration),
    ensures
        brings(d, d.uuids.display, unit, m, Desktop { display: m.display.update(9, !on), ..m }),
        brings(d, d.uuids.display, cooling, m, Desktop { display: m.display.update(12, on), ..m }),
        brings(
            d,
            d.uuids.vibration,
            vibration,
            m,
            Desktop { vibration: m.vibration.update(10, on), ..m },
        ),
{
    lemma_apart(d.uuids);
    lemma_register(m.display, 0x0200, !on);
    lemma_register(m.display, 0x1000, on);
    lemma_register(m.vibration, 0x0400, on);
}

/// The temperatures are read where the device holds them, and subscribed to with the rest.
pub proof fn law_sources(
    d: VolcanoHybrid,
    current: Result<u128, StorzError>,
    target: Result<u128, StorzError>,
    list: Vec<Subscription>,
)
    requires
        call_ensures(VolcanoHybrid::current_temperature_source, (&d,), current),
        call_ensures(VolcanoHybrid::target_temperature_source, (&d,), target),
        call_ensures(VolcanoHybrid::subscriptions, (&d,), list),
    ensures
        current is Ok <==> d.characteristics@.contains(d.uuids.current_temp),
        current matches Ok(uuid) ==> uuid == d.uuids.current_temp,
        target is Ok <==> d.characteristics@.contains(d.uuids.target_temp),
        target matches Ok(uuid) ==> uuid == d.uuids.target_temp,
        current matches Err(e) ==> e@ == unknown(d.uuids.current_temp),
        target matches Err(e) ==> e@ == unknown(d.uuids.target_temp),
        list@.len() == 5,
        forall|i: int|
            0 <= i < 5 ==> (#[trigger] list@[i]).required == (i < 3) && list@[i].uuid == seq![
                d.uuids.activity,
                d.uuids.current_temp,
                d.uuids.target_temp,
                d.uuids.display,
                d.uuids.current_auto_off,
            ][i],
{
}

/// The number in the first bytes of a run.
pub proof fn lemma_two(data: Seq<u8>)
    requires
        data.len() >= 2,
    ensures
        crate::utils::little_endian(data.subrange(0, 2)) == two(data),
        crate::utils::little_endian(data.take(2)) == two(data),
        data.len() >= 4 ==> crate::utils::little_endian(data.take(4)) == four(data),
{
    reveal_with_fuel(crate::utils::little_endian, 5);
    let s = data.subrange(0, 2);
    assert(s.skip(1).skip(1) == Seq::<u8>::empty());
    assert(data.take(2) == s);
    if data.len() >= 4 {
        assert(data.take(4).skip(1).skip(1).skip(1).skip(1) == Seq::<u8>::empty());
    }
}

proof fn lemma_flags(n: u16)
    by (bit_vector)
    ensures
        (n & 0x0020 == 0) == (n / 32 % 2 == 0),
        (n & 0x0200 == 0) == (n / 512 % 2 == 0),
        (n & 0x0400 == 0) == (n / 1024 % 2 == 0),
        (n & 0x2000 == 0) == (n / 8192 % 2 == 0),
{
}

/// The activity tells the heater in bit 5, the fan in bit 10 and the pump in bit 13, and nothing
/// else of the state.
pub proof fn law_activity(d: &mut VolcanoHybrid, uuid: u128, data: &[u8], r: bool)
    requires
        call_ensures(VolcanoHybrid::handle_notification, (d, uuid, data), r),
        uuid == old(d).uuids.activity,
        data@.len() >= 2,
    ensures
        r,
        ({
            let flags = bits16(two(data@));
            &&& final(d).state == (DeviceState {
                heater_on: flags[5],
                fan_on: flags[10],
                pump_on: flags[13],
                raw_activity: Some(two(data@) as u32),
                ..old(d).state
            })
        }),
        final(d).uuids == old(d).uuids,
        final(d).characteristics == old(d).characteristics,
{
    lemma_two(data@);
    lemma_flags(two(data@) as u16);
}

/// A temperature of so many tenths of a degree, up to one rounding.
pub open spec fn is_tenths(t: Option<Single>, tenths: int) -> bool {
    &&& t is Some && t->0.is_finite()
    &&& 10 * t->0.signed_units() - tenths * pow2(149) <= 10 * pow2(137)
    &&& tenths * pow2(149) - 10 * t->0.signed_units() <= 10 * pow2(137)
}

/// The measured temperature comes in two bytes and the target in four, in tenths of a degree.
/// Neither tells anything else of the state, and too few bytes tell nothing.
pub proof fn law_temperatures(d: &mut VolcanoHybrid, uuid: u128, data: &[u8], r: bool)
    requires
        call_ensures(VolcanoHybrid::handle_notification, (d, uuid, data), r),
        old(d).uuids.activity != old(d).uuids.current_temp,
        old(d).uuids.activity != old(d).uuids.target_temp,
        old(d).uuids.current_temp != old(d).uuids.target_temp,
    ensures
        uuid == old(d).uuids.current_temp ==> r == (data@.len() >= 2),
        uuid == old(d).uuids.target_temp ==> r == (data@.len() >= 4),
        r && uuid == old(d).uuids.current_temp ==> final(d).state == (DeviceState {
            current_temp: final(d).state.current_temp,
            ..old(d).state
        }) && is_tenths(final(d).state.current_temp, two(data@)),
        r && uuid == old(d).uuids.target_temp ==> final(d).state == (DeviceState {
            target_temp: Some(crate::utils::of_tenths(four(data@) as nat)),
            ..old(d).state
        }) && (four(data@) <= 0xffff ==> is_tenths(final(d).state.target_temp, four(data@))),
        !r ==> final(d).state == old(d).state,
{
    if data@.len() >= 2 {
        lemma_two(data@);
        crate::utils::lemma_of_tenths_error(two(data@) as nat);
    }
    if data@.len() >= 4 && four(data@) <= 0xffff {
        crate::utils::lemma_of_tenths_error(four(data@) as nat);
    }
}

/// The display tells the unit in bit 9, the countdown tells the seconds until the device switches
/// itself off, and both leave the rest of the settings and of the state alone.
pub proof fn law_settings(d: &mut VolcanoHybrid, uuid: u128, data: &[u8], r: bool)
    requires
        call_ensures(VolcanoHybrid::handle_notification, (d, uuid, data), r),
        uuid != old(d).uuids.activity,
        uuid != old(d).uuids.current_temp,
        uuid != old(d).uuids.target_temp,
        old(d).uuids.display != old(d).uuids.current_auto_off,
    ensures
        r <==> data@.len() >= 2 && (uuid == old(d).uuids.display || uuid
            == old(d).uuids.current_auto_off),
        ({
            let before = match old(d).state.settings {
                Some(s) => s,
                None => DeviceSettings::blank(),
            };
            &&& r && uuid == old(d).uuids.display ==> final(d).state == (DeviceState {
                settings: Some(
                    DeviceSettings { is_celsius: !bits16(two(data@))[9], ..before },
                ),
                ..old(d).state
            })
            &&& r && uuid == old(d).uuids.current_auto_off ==> final(d).state == (DeviceState {
                settings: Some(
                    DeviceSettings { auto_shutdown_seconds: Some(two(data@) as u16), ..before },
                ),
                ..old(d).state
            })
            &&& !r ==> final(d).state == old(d).state
        }),
{
    if data@.len() >= 2 {
        lemma_two(data@);
        lemma_flags(two(data@) as u16);
    }
}

/// Every piece of information comes from its own read, and a read that failed, or whose text is
/// not UTF-8, leaves out its own piece alone.
pub proof fn law_information(
    serial: Option<Vec<u8>>,
    firmware: Option<Vec<u8>>,
    firmware_ble: Option<Vec<u8>>,
    hours: Option<Vec<u8>>,
    minutes: Option<Vec<u8>>,
    r: DeviceInfo,
)
    requires
        call_ensures(
            VolcanoHybrid::device_info,
            (serial, firmware, firmware_ble, hours, minutes),
            r,
        ),
    ensures
        is_text(serial, r@.serial_number),
        is_text(firmware, r@.firmware_version),
        is_text(firmware_ble, r@.firmware_ble_version),
        is_count(hours, r@.hours_of_heating),
        is_count(minutes, r@.minutes_of_heating),
        r@.color_index is None,
        r@.heater_runtime_minutes is None,
        r@.battery_charging_time_minutes is None,
{
    if hours is Some && hours->0@.len() >= 2 {
        lemma_two(hours->0@);
    }
    if minutes is Some && minutes->0@.len() >= 2 {
        lemma_two(minutes->0@);
    }
}

/// The text of a read: there exactly where the read worked out and is UTF-8.
pub open spec fn is_text(data: Option<Vec<u8>>, text: Option<Seq<char>>) -> bool {
    &&& text is Some <==> data is Some && vstd::utf8::valid_utf8(data->0@)
    &&& text matches Some(t) ==> t == vstd::utf8::decode_utf8(data->0@)
}

/// The number of a read: there exactly where the read brought two bytes or more.
pub open spec fn is_count(data: Option<Vec<u8>>, n: Option<u16>) -> bool {
    &&& n is Some <==> data is Some && data->0@.len() >= 2
    &&& n matches Some(v) ==> v == two(data->0@)
}

} // verus!
