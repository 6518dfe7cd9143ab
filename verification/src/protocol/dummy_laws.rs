//! What the simulated device does, in degrees and seconds.
use crate::device::DeviceModel;
use crate::device::DeviceSettings;
use crate::device::DeviceState;
use crate::device::HeaterMode;
use crate::error::StorzError;
use crate::protocol::dummy::DummyDevice;
use crate::single::Single;
use vstd::arithmetic::power2::lemma2_to64;
use vstd::arithmetic::power2::lemma_pow2_adds;
use vstd::arithmetic::power2::lemma_pow2_pos;
use vstd::arithmetic::power2::pow2;
use vstd::prelude::*;

verus! {

/// A number of units that is a whole number of degrees.
pub open spec fn degrees(n: int) -> int {
    n * pow2(149)
}

/// A number kept between two others.
pub open spec fn kept_between(n: int, low: int, high: int) -> int {
    if n < low {
        low
    } else if n > high {
        high
    } else {
        n
    }
}

/// A temperature between 20 and 230 degrees.
pub open spec fn from_20_to_230(x: Single) -> bool {
    x.is_finite() && degrees(20) <= x.signed_units() <= degrees(230)
}

proof fn lemma_ranges(x: Single)
    ensures
        from_20_to_230(x) <==> crate::protocol::dummy::plausible(x),
{
    crate::protocol::dummy::lemma_numbers();
    let room = Single { bits: crate::protocol::dummy::ROOM };
    let top = Single { bits: crate::utils::TEMP_MAX };
    if x.is_finite() {
        crate::protocol::dummy::lemma_le(room, x);
        crate::protocol::dummy::lemma_le(x, top);
    } else if crate::protocol::dummy::plausible(x) {
        crate::protocol::dummy::lemma_between(room, x, top);
    }
}

/// A fiftieth or a hundredth of the distance of two temperatures, as it is computed.
proof fn lemma_part(high: Single, low: Single, rate: Single, s: nat, m: int)
    requires
        from_20_to_230(high),
        from_20_to_230(low),
        low.signed_units() < high.signed_units(),
        rate.is_finite(),
        !rate.negative(),
        rate.units() == 0xa3_d70a * pow2(s),
        s == 120 && m == 50 || s == 119 && m == 100,
    ensures
        ({
            let part = high.difference(low).product(rate);
            let gap = high.signed_units() - low.signed_units();
            &&& part.is_finite()
            &&& gap - pow2(134) <= m * part.signed_units() <= gap + pow2(134)
        }),
{
    crate::protocol::dummy::lemma_step_powers();
    crate::protocol::dummy::lemma_difference_is_number(high, low);
    lemma2_to64();
    lemma_pow2_pos(s);
    lemma_pow2_adds(5, 122);
    lemma_pow2_adds(6, 122);
    lemma_pow2_adds(12, 122);
    lemma_pow2_adds(29, 122);
    lemma_pow2_adds(30, 122);
    lemma_pow2_adds(29, 120);
    lemma_pow2_adds(30, 119);
    let u = pow2(149);
    let gap = high.signed_units() - low.signed_units();
    assert(gap < 0x8_0000_0000 * pow2(122));
    crate::accuracy::lemma_nearest_error(false, gap as nat, 1, 133);
    let d = high.difference(low);
    assert(d == crate::single::nearest(false, gap as nat, 1));
    let q: nat = if s == 120 {
        0x2000_0000
    } else {
        0x4000_0000
    };
    let k: nat = if s == 120 {
        128
    } else {
        127
    };
    let a = d.units() * 0xa3_d70a;
    let num = d.units() * rate.units();
    assert(num == a * pow2(s)) by (nonlinear_arith)
        requires
            num == d.units() * (0xa3_d70a * pow2(s)),
            a == d.units() * 0xa3_d70a,
    ;
    assert(u == q * pow2(s));
    assert(q * pow2((24 + k) as nat) == 0x2000_0000 * (0x4000_0000 * pow2(122)));
    assert(a < q * pow2((24 + k) as nat));
    assert(num < u * pow2((24 + k) as nat)) by (nonlinear_arith)
        requires
            num == a * pow2(s),
            a < q * pow2((24 + k) as nat),
            u == q * pow2(s),
            pow2(s) > 0,
    ;
    crate::accuracy::lemma_nearest_error(false, num, u, k);
    let part = d.product(rate);
    assert(part == crate::single::nearest(false, num, u));
    let b = part.units();
    assert(2 * (b * q - a) <= q * pow2(k) && 2 * (a - b * q) <= q * pow2(k)) by (nonlinear_arith)
        requires
            2 * (b * u - num) <= u * pow2(k),
            2 * (num - b * u) <= u * pow2(k),
            num == a * pow2(s),
            u == q * pow2(s),
            pow2(s) > 0,
    ;
}

/// While heating, a second covers a fiftieth of the distance to the target, but at least 0.3 and
/// at most 2 degrees, and goes no further than the target. Rounding adds less than a hundred
/// thousandth of a degree.
#[verifier::rlimit(40)]
pub proof fn law_heating_rate(d: &mut DummyDevice, r: DeviceState)
    requires
        call_ensures(DummyDevice::tick, (d,), r),
        old(d).heater,
        old(d).state.current_temp is Some,
        from_20_to_230(old(d).state.current_temp->0),
        from_20_to_230(old(d).target),
        degrees(40) <= old(d).target.signed_units(),
        old(d).state.current_temp->0.signed_units() < old(d).target.signed_units(),
    ensures
        r.current_temp is Some,
        ({
            let before = old(d).state.current_temp->0.signed_units();
            let after = r.current_temp->0.signed_units();
            let target = old(d).target.signed_units();
            let ideal = kept_between(target - before, degrees(15), degrees(100));
            &&& before < after <= target
            &&& 50 * (after - before) <= ideal + pow2(138)
            &&& after == target || 50 * (after - before) >= ideal - pow2(138)
        }),
{
    let current = old(d).state.current_temp->0;
    let target = old(d).target;
    let low = Single { bits: crate::protocol::dummy::HEATING_MIN };
    let high = Single { bits: crate::protocol::dummy::TWO };
    let rate = Single { bits: crate::protocol::dummy::HEATING_RATE };
    crate::protocol::dummy::lemma_numbers();
    crate::protocol::dummy::lemma_step_powers();
    lemma2_to64();
    lemma_pow2_adds(12, 122);
    lemma_pow2_adds(16, 122);
    lemma_ranges(current);
    lemma_ranges(target);
    crate::utils::law_range(target);
    crate::protocol::dummy::law_heating(current, target);
    crate::protocol::dummy::lemma_constant(rate, 0xa3_d70a, 120);
    lemma_part(target, current, rate, 120, 50);
    let part = target.difference(current).product(rate);
    crate::protocol::dummy::lemma_le(low, part);
    crate::protocol::dummy::lemma_le(part, high);
    let step = crate::protocol::dummy::heating_step(current, target);
    let total = current.signed_units() + step.signed_units();
    assert(0 < total < pow2(157));
    crate::accuracy::lemma_nearest_error(false, total as nat, 1, 133);
    let x = current.sum(step);
    assert(x == crate::single::nearest(false, total as nat, 1));
    crate::protocol::dummy::lemma_le(x, target);
    let next = crate::protocol::dummy::next_temperature(current, target, true);
    crate::protocol::dummy::lemma_le(next, target);
}

/// Without heating, a second covers a hundredth of the distance to the room's 20 degrees, but at
/// least 0.1 and at most 1 degree, and goes no further than the room's temperature. Rounding adds
/// less than a hundred thousandth of a degree.
#[verifier::rlimit(40)]
pub proof fn law_cooling_rate(d: &mut DummyDevice, r: DeviceState)
    requires
        call_ensures(DummyDevice::tick, (d,), r),
        !old(d).heater,
        old(d).state.current_temp is Some,
        from_20_to_230(old(d).state.current_temp->0),
        degrees(20) < old(d).state.current_temp->0.signed_units(),
    ensures
        r.current_temp is Some,
        ({
            let before = old(d).state.current_temp->0.signed_units();
            let after = r.current_temp->0.signed_units();
            let ideal = kept_between(before - degrees(20), degrees(10), degrees(100));
            &&& degrees(20) <= after < before
            &&& 100 * (before - after) <= ideal + pow2(139)
            &&& after == degrees(20) || 100 * (before - after) >= ideal - pow2(139)
        }),
{
    let current = old(d).state.current_temp->0;
    let target = old(d).target;
    let room = Single { bits: crate::protocol::dummy::ROOM };
    let low = Single { bits: crate::protocol::dummy::COOLING_MIN };
    let high = Single { bits: crate::protocol::dummy::COOLING_MAX };
    let rate = Single { bits: crate::protocol::dummy::COOLING_RATE };
    crate::protocol::dummy::lemma_numbers();
    crate::protocol::dummy::lemma_step_powers();
    lemma2_to64();
    lemma_pow2_adds(12, 122);
    lemma_pow2_adds(17, 122);
    lemma_ranges(current);
    lemma_ranges(room);
    crate::protocol::dummy::law_cooling(current, target);
    crate::protocol::dummy::lemma_constant(rate, 0xa3_d70a, 119);
    lemma_part(current, room, rate, 119, 100);
    let part = current.difference(room).product(rate);
    crate::protocol::dummy::lemma_le(low, part);
    crate::protocol::dummy::lemma_le(part, high);
    let step = crate::protocol::dummy::cooling_step(current);
    crate::protocol::dummy::lemma_difference_is_number(current, step);
    let total = current.signed_units() - step.signed_units();
    assert(0 < total < pow2(157));
    crate::accuracy::lemma_nearest_error(false, total as nat, 1, 133);
    let x = current.difference(step);
    assert(x == crate::single::nearest(false, total as nat, 1));
    crate::protocol::dummy::lemma_le(room, x);
    let next = crate::protocol::dummy::next_temperature(current, target, false);
    lemma_ranges(next);
    crate::protocol::dummy::lemma_le(next, current);
}

/// A temperature is a whole number of degrees.
pub open spec fn is_degrees(t: Option<Single>, n: int) -> bool {
    t is Some && t->0.is_finite() && t->0.signed_units() == degrees(n)
}

/// A new device is at 22 degrees and is to heat up to 180, with boosts of 5 and 10. Heater and pump
/// are off, and the battery is at 85 percent.
pub proof fn law_new(d: DummyDevice)
    requires
        call_ensures(DummyDevice::new, (), d),
    ensures
        is_degrees(d.state.current_temp, 22),
        is_degrees(d.state.target_temp, 180),
        is_degrees(Some(d.target), 180),
        is_degrees(d.state.boost_temp, 5),
        is_degrees(d.state.super_boost_temp, 10),
        !d.heater && !d.pump && !d.state.heater_on && !d.state.pump_on && !d.state.fan_on,
        !d.state.setpoint_reached && d.state.raw_activity is None,
        d.state.heater_mode == Some(HeaterMode::Off),
        d.brightness == 50,
        d.vibration,
        d.shutoff_time == 300,
        d.state.settings is Some,
        ({
            let s = d.state.settings->0;
            &&& s.is_celsius && s.vibration && s.boost_visualization
            &&& s.battery_level == Some(85u8)
            &&& s.auto_shutdown_seconds == Some(300u16)
            &&& !s.is_charging && !s.setpoint_reached && !s.charge_current_optimization
            &&& !s.charge_voltage_limit && !s.permanent_bluetooth
        }),
{
    crate::protocol::dummy::lemma_numbers();
    lemma2_to64();
    crate::protocol::dummy::lemma_constant(
        Single { bits: crate::protocol::dummy::START_BOOST },
        0xa0_0000,
        128,
    );
    lemma_pow2_adds(21, 128);
    crate::protocol::dummy::lemma_constant(
        Single { bits: crate::protocol::dummy::START_SUPER_BOOST },
        0xa0_0000,
        129,
    );
    lemma_pow2_adds(20, 129);
}

/// A second of the simulation shows what was asked for: the target, the heater and its mode, and
/// the pump. The setpoint is reached within two degrees of the target. Nothing else changes.
pub proof fn law_tick_shows(d: &mut DummyDevice, r: DeviceState)
    requires
        call_ensures(DummyDevice::tick, (d,), r),
    ensures
        r == final(d).state,
        r.target_temp == Some(old(d).target),
        r.heater_on == old(d).heater,
        r.pump_on == old(d).pump,
        r.heater_mode == Some(
            if old(d).heater {
                HeaterMode::Normal
            } else {
                HeaterMode::Off
            },
        ),
        old(d).state.current_temp is None ==> r.current_temp is None && r.setpoint_reached == old(
            d,
        ).state.setpoint_reached,
        old(d).state.current_temp is Some && from_20_to_230(old(d).state.current_temp->0)
            && from_20_to_230(old(d).target) && degrees(40) <= old(d).target.signed_units() ==> (
        r.setpoint_reached <==> -degrees(2) <= r.current_temp->0.signed_units()
            - old(d).target.signed_units() <= degrees(2)),
        r.boost_temp == old(d).state.boost_temp,
        r.super_boost_temp == old(d).state.super_boost_temp,
        r.settings == old(d).state.settings,
        r.fan_on == old(d).state.fan_on,
        r.raw_activity == old(d).state.raw_activity,
        final(d).target == old(d).target,
        final(d).heater == old(d).heater,
        final(d).pump == old(d).pump,
        final(d).brightness == old(d).brightness,
        final(d).vibration == old(d).vibration,
        final(d).shutoff_time == old(d).shutoff_time,
{
    let state = old(d).state;
    let target = old(d).target;
    if state.current_temp is Some && from_20_to_230(state.current_temp->0) && from_20_to_230(target)
        && degrees(40) <= target.signed_units() {
        lemma_ranges(state.current_temp->0);
        crate::utils::law_range(target);
        crate::protocol::dummy::law_tick(state, target, old(d).heater, old(d).pump);
        crate::protocol::dummy::lemma_step_powers();
    }
}

/// Setting the target sets the nearest even number of degrees from 40 to 230, and what the state
/// shows of it, and nothing else.
pub proof fn law_target_is_even(d: &mut DummyDevice, celsius: Single, r: Result<(), StorzError>)
    requires
        call_ensures(DummyDevice::set_target_temperature, (d, celsius), r),
        !celsius.is_nan(),
    ensures
        r is Ok,
        final(d).state.target_temp == Some(final(d).target),
        final(d).target.is_finite(),
        exists|half: int|
            20 <= half <= 115 && final(d).target.signed_units() == #[trigger] degrees(2 * half),
        celsius.is_finite() && degrees(40) <= celsius.signed_units() <= degrees(230) ==> degrees(-1)
            <= final(d).target.signed_units() - celsius.signed_units() <= degrees(1),
        *final(d) == (DummyDevice {
            target: final(d).target,
            state: DeviceState { target_temp: final(d).state.target_temp, ..old(d).state },
            ..*old(d)
        }),
{
    let even = crate::protocol::dummy::even_target(celsius);
    crate::protocol::dummy::law_even_target(celsius);
    crate::utils::law_range(even);
    crate::utils::law_range(celsius);
    lemma_pow2_pos(149);
    let half = choose|half: nat| crate::protocol::dummy::is_twice(even, half);
    assert(crate::protocol::dummy::is_twice(even, half));
    let u = pow2(149);
    assert(20 <= half <= 115) by (nonlinear_arith)
        requires
            40 * u <= 2 * half * u <= 230 * u,
            u > 0,
    ;
    assert(even.signed_units() == degrees(2 * half as int));
}

/// The switches of heater and pump do what they say, are shown in the state, and touch nothing
/// else.
pub proof fn law_heater_switch(
    d: &mut DummyDevice,
    r: Result<(), StorzError>,
    e: &mut DummyDevice,
    q: Result<(), StorzError>,
)
    requires
        call_ensures(DummyDevice::heater_on, (d,), r),
        call_ensures(DummyDevice::heater_off, (e,), q),
    ensures
        r is Ok && q is Ok,
        final(d).heater && final(d).state.heater_on && final(d).state.heater_mode == Some(
            HeaterMode::Normal,
        ),
        !final(e).heater && !final(e).state.heater_on && final(e).state.heater_mode == Some(
            HeaterMode::Off,
        ),
        old(d) == old(e) ==> *final(e) == (DummyDevice {
            heater: false,
            state: DeviceState {
                heater_on: false,
                heater_mode: Some(HeaterMode::Off),
                ..final(d).state
            },
            ..*final(d)
        }),
        final(d).target == old(d).target && final(d).pump == old(d).pump && final(d).brightness
            == old(d).brightness && final(d).vibration == old(d).vibration && final(d).shutoff_time
            == old(d).shutoff_time,
        final(d).state.current_temp == old(d).state.current_temp,
        final(d).state.target_temp == old(d).state.target_temp,
        final(d).state.pump_on == old(d).state.pump_on,
        final(d).state.settings == old(d).state.settings,
{
}

/// The switch of the pump.
pub proof fn law_pump_switch(
    d: &mut DummyDevice,
    r: Result<(), StorzError>,
    e: &mut DummyDevice,
    q: Result<(), StorzError>,
)
    requires
        call_ensures(DummyDevice::pump_on, (d,), r),
        call_ensures(DummyDevice::pump_off, (e,), q),
    ensures
        r is Ok && q is Ok,
        final(d).pump && final(d).state.pump_on,
        !final(e).pump && !final(e).state.pump_on,
        old(d) == old(e) ==> *final(e) == (DummyDevice {
            pump: false,
            state: DeviceState { pump_on: false, ..final(d).state },
            ..*final(d)
        }),
        final(d).target == old(d).target && final(d).heater == old(d).heater && final(d).brightness
            == old(d).brightness && final(d).vibration == old(d).vibration && final(d).shutoff_time
            == old(d).shutoff_time,
        final(d).state == (DeviceState { pump_on: true, ..old(d).state }),
{
}

/// A heater mode is shown, and the heater is on in every mode but off.
pub proof fn law_heater_mode(d: &mut DummyDevice, mode: HeaterMode, r: Result<(), StorzError>)
    requires
        call_ensures(DummyDevice::set_heater_mode, (d, mode), r),
    ensures
        r is Ok,
        final(d).state.heater_mode == Some(mode),
        final(d).heater == final(d).state.heater_on,
        final(d).heater <==> mode is Normal || mode is Boost || mode is SuperBoost,
        *final(d) == (DummyDevice {
            heater: final(d).heater,
            state: DeviceState {
                heater_on: final(d).state.heater_on,
                heater_mode: final(d).state.heater_mode,
                ..old(d).state
            },
            ..*old(d)
        }),
{
}

/// What is set is what the settings tell, where there are any, and the other settings stay.
pub proof fn law_settings(
    d: &mut DummyDevice,
    celsius: bool,
    a: Result<(), StorzError>,
    e: &mut DummyDevice,
    on: bool,
    b: Result<(), StorzError>,
    f: &mut DummyDevice,
    seconds: u16,
    c: Result<(), StorzError>,
)
    requires
        call_ensures(DummyDevice::set_temperature_unit, (d, celsius), a),
        call_ensures(DummyDevice::set_vibration, (e, on), b),
        call_ensures(DummyDevice::set_shutoff_time, (f, seconds), c),
    ensures
        a is Ok && b is Ok && c is Ok,
        old(d).state.settings is Some ==> final(d).state.settings == Some(
            DeviceSettings { is_celsius: celsius, ..old(d).state.settings->0 },
        ),
        old(e).state.settings is Some ==> final(e).state.settings == Some(
            DeviceSettings { vibration: on, ..old(e).state.settings->0 },
        ),
        final(e).vibration == on,
        old(f).state.settings is Some ==> final(f).state.settings == Some(
            DeviceSettings { auto_shutdown_seconds: Some(seconds), ..old(f).state.settings->0 },
        ),
        final(f).shutoff_time == seconds,
        *final(d) == (DummyDevice {
            state: DeviceState { settings: final(d).state.settings, ..old(d).state },
            ..*old(d)
        }),
        *final(e) == (DummyDevice {
            vibration: on,
            state: DeviceState { settings: final(e).state.settings, ..old(e).state },
            ..*old(e)
        }),
        *final(f) == (DummyDevice {
            shutoff_time: seconds,
            state: DeviceState { settings: final(f).state.settings, ..old(f).state },
            ..*old(f)
        }),
{
}

/// Brightness, timer and boosts are what they are set to.
pub proof fn law_values(
    d: &mut DummyDevice,
    value: u16,
    a: Result<(), StorzError>,
    e: &mut DummyDevice,
    seconds: u16,
    b: Result<(), StorzError>,
    f: &mut DummyDevice,
    boost: Single,
    c: Result<(), StorzError>,
    g: &mut DummyDevice,
    more: Single,
    h: Result<(), StorzError>,
)
    requires
        call_ensures(DummyDevice::set_brightness, (d, value), a),
        call_ensures(DummyDevice::set_auto_shutdown_timer, (e, seconds), b),
        call_ensures(DummyDevice::set_boost_temperature, (f, boost), c),
        call_ensures(DummyDevice::set_super_boost_temperature, (g, more), h),
    ensures
        a is Ok && b is Ok && c is Ok && h is Ok,
        *final(d) == (DummyDevice { brightness: value, ..*old(d) }),
        old(e).state.settings is Some ==> final(e).state.settings == Some(
            DeviceSettings { auto_shutdown_seconds: Some(seconds), ..old(e).state.settings->0 },
        ),
        *final(e) == (DummyDevice {
            state: DeviceState { settings: final(e).state.settings, ..old(e).state },
            ..*old(e)
        }),
        *final(f) == (DummyDevice {
            state: DeviceState { boost_temp: Some(boost), ..old(f).state },
            ..*old(f)
        }),
        *final(g) == (DummyDevice {
            state: DeviceState { super_boost_temp: Some(more), ..old(g).state },
            ..*old(g)
        }),
{
}

/// What is read is what the state holds, and where it holds nothing it is an error. The device
/// passes for a Venty.
pub proof fn law_reads(
    d: DummyDevice,
    now: Result<Single, StorzError>,
    goal: Result<Single, StorzError>,
    settings: Result<DeviceSettings, StorzError>,
    state: Result<DeviceState, StorzError>,
    model: DeviceModel,
)
    requires
        call_ensures(DummyDevice::get_current_temperature, (&d,), now),
        call_ensures(DummyDevice::get_target_temperature, (&d,), goal),
        call_ensures(DummyDevice::get_settings, (&d,), settings),
        call_ensures(DummyDevice::get_state, (&d,), state),
        call_ensures(DummyDevice::device_model, (&d,), model),
    ensures
        now is Ok <==> d.state.current_temp is Some,
        now is Ok ==> Some(now->Ok_0) == d.state.current_temp,
        now is Err ==> now->Err_0@ == crate::error::unparsed("Current temperature not available"@),
        goal is Ok <==> d.state.target_temp is Some,
        goal is Ok ==> Some(goal->Ok_0) == d.state.target_temp,
        goal is Err ==> goal->Err_0@ == crate::error::unparsed("Target temperature not available"@),
        settings is Ok <==> d.state.settings is Some,
        settings is Ok ==> Some(settings->Ok_0) == d.state.settings,
        settings is Err ==> settings->Err_0@ == crate::error::unparsed("Settings not available"@),
        state is Ok && state->Ok_0 == d.state,
        model == DeviceModel::Venty,
{
}

} // verus!
