//! A device without hardware, for trying things out.
use crate::device::DeviceModel;
use crate::device::DeviceSettings;
use crate::device::DeviceState;
use crate::device::HeaterMode;
use crate::error::Detail;
use crate::error::StorzError;
use crate::single::Single;
use crate::utils::TEMP_MAX;
use crate::utils::TEMP_MIN;
use vstd::arithmetic::power2::lemma2_to64;
use vstd::arithmetic::power2::lemma_pow2_adds;
use vstd::arithmetic::power2::lemma_pow2_pos;
use vstd::arithmetic::power2::pow2;
use vstd::prelude::*;
use vstd::string::*;

verus! {

// Numbers of the simulation, as the bits of singles.
/// 2.0: the step of the target, the largest heating step, and how near counts as reached.
pub const TWO: u32 = 0x4000_0000;

/// 0.02: the part of the distance to the target that one second of heating covers.
pub const HEATING_RATE: u32 = 0x3ca3_d70a;

/// 0.3: the smallest heating step.
pub const HEATING_MIN: u32 = 0x3e99_999a;

/// 0.01: the part of the distance to the room that one second of cooling covers.
pub const COOLING_RATE: u32 = 0x3c23_d70a;

/// 0.1: the smallest cooling step.
pub const COOLING_MIN: u32 = 0x3dcc_cccd;

/// 1.0: the largest cooling step.
pub const COOLING_MAX: u32 = 0x3f80_0000;

/// 20.0: the temperature of the room.
pub const ROOM: u32 = 0x41a0_0000;

/// 22.0: the temperature at the start.
pub const START: u32 = 0x41b0_0000;

/// 180.0: the target at the start.
pub const START_TARGET: u32 = 0x4334_0000;

/// 5.0: the boost offset at the start.
pub const START_BOOST: u32 = 0x40a0_0000;

/// 10.0: the superboost offset at the start.
pub const START_SUPER_BOOST: u32 = 0x4120_0000;

/// Dummy device for testing without BLE hardware.
///
/// Simulates a Venty-like device with temperature ramping,
/// heater control, and settings management.
#[derive(Debug, Clone, Copy)]
pub struct DummyDevice {
    pub state: DeviceState,
    pub target: Single,
    pub heater: bool,
    pub pump: bool,
    pub brightness: u16,
    pub vibration: bool,
    pub shutoff_time: u16,
}

/// The target that is set: the nearest even number of degrees, from 40 to 230.
pub open spec fn even_target(celsius: Single) -> Single {
    let two = Single { bits: TWO };
    celsius.quotient(two).rounded().product(two).clamped(
        Single { bits: TEMP_MIN },
        Single { bits: TEMP_MAX },
    )
}

/// The step that a second of heating takes.
pub open spec fn heating_step(current: Single, target: Single) -> Single {
    target.difference(current).product(Single { bits: HEATING_RATE }).clamped(
        Single { bits: HEATING_MIN },
        Single { bits: TWO },
    )
}

/// The step that a second of cooling takes.
pub open spec fn cooling_step(current: Single) -> Single {
    current.difference(Single { bits: ROOM }).product(Single { bits: COOLING_RATE }).clamped(
        Single { bits: COOLING_MIN },
        Single { bits: COOLING_MAX },
    )
}

/// The temperature a second later: towards the target while heating and never above it,
/// towards the room otherwise and never below it.
pub open spec fn next_temperature(current: Single, target: Single, heating: bool) -> Single {
    if heating {
        current.sum(heating_step(current, target)).smaller(target)
    } else {
        current.difference(cooling_step(current)).larger(Single { bits: ROOM })
    }
}

/// The state a second later.
pub open spec fn state_after(
    before: DeviceState,
    target: Single,
    heating: bool,
    pumping: bool,
) -> DeviceState {
    let shown = DeviceState {
        target_temp: Some(target),
        heater_on: heating,
        pump_on: pumping,
        heater_mode: Some(
            if heating {
                HeaterMode::Normal
            } else {
                HeaterMode::Off
            },
        ),
        ..before
    };
    match before.current_temp {
        Some(current) => {
            let next = next_temperature(current, target, heating);
            DeviceState {
                current_temp: Some(next),
                setpoint_reached: next.difference(target).absolute().le(Single { bits: TWO }),
                ..shown
            }
        },
        None => shown,
    }
}

impl DummyDevice {
    /// A device at 22 degrees with a target of 180, everything off.
    pub open spec fn fresh() -> DummyDevice {
        DummyDevice {
            state: DeviceState {
                current_temp: Some(Single { bits: START }),
                target_temp: Some(Single { bits: START_TARGET }),
                boost_temp: Some(Single { bits: START_BOOST }),
                super_boost_temp: Some(Single { bits: START_SUPER_BOOST }),
                heater_mode: Some(HeaterMode::Off),
                heater_on: false,
                pump_on: false,
                fan_on: false,
                setpoint_reached: false,
                raw_activity: None,
                settings: Some(
                    DeviceSettings {
                        is_celsius: true,
                        battery_level: Some(85),
                        auto_shutdown_seconds: Some(300),
                        is_charging: false,
                        boost_visualization: true,
                        vibration: true,
                        ..DeviceSettings::blank()
                    },
                ),
            },
            target: Single { bits: START_TARGET },
            heater: false,
            pump: false,
            brightness: 50,
            vibration: true,
            shutoff_time: 300,
        }
    }

    /// What the state shows is what is set, and the temperatures are in their ranges.
    pub open spec fn consistent(&self) -> bool {
        &&& self.state.target_temp == Some(self.target)
        &&& self.state.heater_on == self.heater
        &&& self.state.pump_on == self.pump
        &&& self.state.settings is Some
        &&& crate::utils::in_range(self.target)
        &&& self.state.current_temp matches Some(current) && plausible(current)
    }

    /// A device at 22 degrees with a target of 180, everything off.
    pub fn new() -> (r: DummyDevice)
        ensures
            r == DummyDevice::fresh(),
            r.consistent(),
    {
        proof {
            law_fresh_is_consistent();
        }
        let mut settings = DeviceSettings::default();
        settings.is_celsius = true;
        settings.battery_level = Some(85);
        settings.auto_shutdown_seconds = Some(300);
        settings.boost_visualization = true;
        settings.vibration = true;
        let mut state = DeviceState::default();
        state.current_temp = Some(Single::from_bits(START));
        state.target_temp = Some(Single::from_bits(START_TARGET));
        state.boost_temp = Some(Single::from_bits(START_BOOST));
        state.super_boost_temp = Some(Single::from_bits(START_SUPER_BOOST));
        state.heater_mode = Some(HeaterMode::Off);
        state.settings = Some(settings);
        DummyDevice {
            state,
            target: Single::from_bits(START_TARGET),
            heater: false,
            pump: false,
            brightness: 50,
            vibration: true,
            shutoff_time: 300,
        }
    }

    /// One second of the simulation; the new state is told to everyone who listens.
    pub fn tick(&mut self) -> (r: DeviceState)
        ensures
            r == final(self).state,
            old(self).consistent() ==> final(self).consistent(),
            *final(self) == (DummyDevice {
                state: state_after(
                    old(self).state,
                    old(self).target,
                    old(self).heater,
                    old(self).pump,
                ),
                ..*old(self)
            }),
    {
        proof {
            if self.consistent() {
                law_heating(self.state.current_temp->0, self.target);
                law_cooling(self.state.current_temp->0, self.target);
            }
        }
        let target = self.target;
        self.state.target_temp = Some(target);
        self.state.heater_on = self.heater;
        self.state.pump_on = self.pump;
        self.state.heater_mode = Some(
            if self.heater {
                HeaterMode::Normal
            } else {
                HeaterMode::Off
            },
        );
        if let Some(current) = self.state.current_temp {
            let next = if self.heater {
                let step = target.minus(current).times(Single::from_bits(HEATING_RATE)).clamp(
                    Single::from_bits(HEATING_MIN),
                    Single::from_bits(TWO),
                );
                current.plus(step).min(target)
            } else {
                let room = Single::from_bits(ROOM);
                let step = current.minus(room).times(Single::from_bits(COOLING_RATE)).clamp(
                    Single::from_bits(COOLING_MIN),
                    Single::from_bits(COOLING_MAX),
                );
                current.minus(step).max(room)
            };
            self.state.current_temp = Some(next);
            self.state.setpoint_reached = next.minus(target).abs().at_most(Single::from_bits(TWO));
        }
        self.state
    }

    /// The simulated temperature.
    pub fn get_current_temperature(&self) -> (r: Result<Single, StorzError>)
        ensures
            match self.state.current_temp {
                Some(v) => r matches Ok(got) && got == v,
                None => r matches Err(e) && e@ == crate::error::unparsed("Current temperature not available"@),
            },
    {
        match self.state.current_temp {
            Some(v) => Ok(v),
            None => Err(StorzError::ParseError(
                Detail::Text("Current temperature not available".to_owned()),
            )),
        }
    }

    /// The target temperature.
    pub fn get_target_temperature(&self) -> (r: Result<Single, StorzError>)
        ensures
            match self.state.target_temp {
                Some(v) => r matches Ok(got) && got == v,
                None => r matches Err(e) && e@ == crate::error::unparsed("Target temperature not available"@),
            },
    {
        match self.state.target_temp {
            Some(v) => Ok(v),
            None => Err(StorzError::ParseError(
                Detail::Text("Target temperature not available".to_owned()),
            )),
        }
    }

    /// The settings.
    pub fn get_settings(&self) -> (r: Result<DeviceSettings, StorzError>)
        ensures
            match self.state.settings {
                Some(v) => r matches Ok(got) && got == v,
                None => r matches Err(e) && e@ == crate::error::unparsed("Settings not available"@),
            },
    {
        match self.state.settings {
            Some(v) => Ok(v),
            None => Err(StorzError::ParseError(Detail::Text("Settings not available".to_owned()))),
        }
    }

    /// The state as it is.
    pub fn get_state(&self) -> (r: Result<DeviceState, StorzError>)
        ensures
            r matches Ok(state) && state == self.state,
    {
        Ok(self.state)
    }

    /// Sets the target to the nearest even number of degrees from 40 to 230.
    pub fn set_target_temperature(&mut self, celsius: Single) -> (r: Result<(), StorzError>)
        ensures
            r is Ok,
            old(self).consistent() && !celsius.is_nan() ==> final(self).consistent(),
            *final(self) == (DummyDevice {
                target: even_target(celsius),
                state: DeviceState { target_temp: Some(even_target(celsius)), ..old(self).state },
                ..*old(self)
            }),
    {
        proof {
            if !celsius.is_nan() {
                law_even_target(celsius);
            }
        }
        let two = Single::from_bits(TWO);
        let even = celsius.divided_by(two).round().times(two);
        let clamped = even.clamp(Single::from_bits(TEMP_MIN), Single::from_bits(TEMP_MAX));
        self.target = clamped;
        self.state.target_temp = Some(clamped);
        Ok(())
    }

    /// Switches the heater on.
    pub fn heater_on(&mut self) -> (r: Result<(), StorzError>)
        ensures
            r is Ok,
            old(self).consistent() ==> final(self).consistent(),
            *final(self) == (DummyDevice {
                heater: true,
                state: DeviceState {
                    heater_on: true,
                    heater_mode: Some(HeaterMode::Normal),
                    ..old(self).state
                },
                ..*old(self)
            }),
    {
        self.heater = true;
        self.state.heater_on = true;
        self.state.heater_mode = Some(HeaterMode::Normal);
        Ok(())
    }

    /// Switches the heater off.
    pub fn heater_off(&mut self) -> (r: Result<(), StorzError>)
        ensures
            r is Ok,
            old(self).consistent() ==> final(self).consistent(),
            *final(self) == (DummyDevice {
                heater: false,
                state: DeviceState {
                    heater_on: false,
                    heater_mode: Some(HeaterMode::Off),
                    ..old(self).state
                },
                ..*old(self)
            }),
    {
        self.heater = false;
        self.state.heater_on = false;
        self.state.heater_mode = Some(HeaterMode::Off);
        Ok(())
    }

    /// Switches the pump on.
    pub fn pump_on(&mut self) -> (r: Result<(), StorzError>)
        ensures
            r is Ok,
            old(self).consistent() ==> final(self).consistent(),
            *final(self) == (DummyDevice {
                pump: true,
                state: DeviceState { pump_on: true, ..old(self).state },
                ..*old(self)
            }),
    {
        self.pump = true;
        self.state.pump_on = true;
        Ok(())
    }

    /// Switches the pump off.
    pub fn pump_off(&mut self) -> (r: Result<(), StorzError>)
        ensures
            r is Ok,
            old(self).consistent() ==> final(self).consistent(),
            *final(self) == (DummyDevice {
                pump: false,
                state: DeviceState { pump_on: false, ..old(self).state },
                ..*old(self)
            }),
    {
        self.pump = false;
        self.state.pump_on = false;
        Ok(())
    }

    /// Shows temperatures in Celsius or in Fahrenheit.
    pub fn set_temperature_unit(&mut self, celsius: bool) -> (r: Result<(), StorzError>)
        ensures
            r is Ok,
            old(self).consistent() ==> final(self).consistent(),
            *final(self) == (DummyDevice {
                state: DeviceState {
                    settings: match old(self).state.settings {
                        Some(s) => Some(DeviceSettings { is_celsius: celsius, ..s }),
                        None => None,
                    },
                    ..old(self).state
                },
                ..*old(self)
            }),
    {
        if let Some(known) = self.state.settings {
            let mut settings = known;
            settings.is_celsius = celsius;
            self.state.settings = Some(settings);
        }
        Ok(())
    }

    /// Sets the brightness.
    pub fn set_brightness(&mut self, value: u16) -> (r: Result<(), StorzError>)
        ensures
            r is Ok,
            old(self).consistent() ==> final(self).consistent(),
            *final(self) == (DummyDevice { brightness: value, ..*old(self) }),
    {
        self.brightness = value;
        Ok(())
    }

    /// Switches vibration.
    pub fn set_vibration(&mut self, on: bool) -> (r: Result<(), StorzError>)
        ensures
            r is Ok,
            old(self).consistent() ==> final(self).consistent(),
            *final(self) == (DummyDevice {
                vibration: on,
                state: DeviceState {
                    settings: match old(self).state.settings {
                        Some(s) => Some(DeviceSettings { vibration: on, ..s }),
                        None => None,
                    },
                    ..old(self).state
                },
                ..*old(self)
            }),
    {
        self.vibration = on;
        if let Some(known) = self.state.settings {
            let mut settings = known;
            settings.vibration = on;
            self.state.settings = Some(settings);
        }
        Ok(())
    }

    /// Sets the shutoff time, which the settings tell as the auto shutdown timer.
    pub fn set_shutoff_time(&mut self, seconds: u16) -> (r: Result<(), StorzError>)
        ensures
            r is Ok,
            old(self).consistent() ==> final(self).consistent(),
            *final(self) == (DummyDevice {
                shutoff_time: seconds,
                state: DeviceState {
                    settings: match old(self).state.settings {
                        Some(s) => Some(DeviceSettings { auto_shutdown_seconds: Some(seconds), ..s }),
                        None => None,
                    },
                    ..old(self).state
                },
                ..*old(self)
            }),
    {
        self.shutoff_time = seconds;
        if let Some(known) = self.state.settings {
            let mut settings = known;
            settings.auto_shutdown_seconds = Some(seconds);
            self.state.settings = Some(settings);
        }
        Ok(())
    }

    /// Sets the auto shutdown timer.
    pub fn set_auto_shutdown_timer(&mut self, seconds: u16) -> (r: Result<(), StorzError>)
        ensures
            r is Ok,
            old(self).consistent() ==> final(self).consistent(),
            *final(self) == (DummyDevice {
                state: DeviceState {
                    settings: match old(self).state.settings {
                        Some(s) => Some(DeviceSettings { auto_shutdown_seconds: Some(seconds), ..s }),
                        None => None,
                    },
                    ..old(self).state
                },
                ..*old(self)
            }),
    {
        if let Some(known) = self.state.settings {
            let mut settings = known;
            settings.auto_shutdown_seconds = Some(seconds);
            self.state.settings = Some(settings);
        }
        Ok(())
    }

    /// Sets the boost offset.
    pub fn set_boost_temperature(&mut self, celsius: Single) -> (r: Result<(), StorzError>)
        ensures
            r is Ok,
            old(self).consistent() ==> final(self).consistent(),
            *final(self) == (DummyDevice {
                state: DeviceState { boost_temp: Some(celsius), ..old(self).state },
                ..*old(self)
            }),
    {
        self.state.boost_temp = Some(celsius);
        Ok(())
    }

    /// Sets the superboost offset.
    pub fn set_super_boost_temperature(&mut self, celsius: Single) -> (r: Result<(), StorzError>)
        ensures
            r is Ok,
            old(self).consistent() ==> final(self).consistent(),
            *final(self) == (DummyDevice {
                state: DeviceState { super_boost_temp: Some(celsius), ..old(self).state },
                ..*old(self)
            }),
    {
        self.state.super_boost_temp = Some(celsius);
        Ok(())
    }

    /// Sets the heater mode.
    pub fn set_heater_mode(&mut self, mode: HeaterMode) -> (r: Result<(), StorzError>)
        ensures
            r is Ok,
            old(self).consistent() ==> final(self).consistent(),
            *final(self) == (DummyDevice {
                heater: mode != HeaterMode::Off,
                state: DeviceState {
                    heater_mode: Some(mode),
                    heater_on: mode != HeaterMode::Off,
                    ..old(self).state
                },
                ..*old(self)
            }),
    {
        self.state.heater_mode = Some(mode);
        self.state.heater_on = mode != HeaterMode::Off;
        self.heater = mode != HeaterMode::Off;
        Ok(())
    }

    /// The model that is simulated.
    pub fn device_model(&self) -> (r: DeviceModel)
        ensures
            r == DeviceModel::Venty,
    {
        DeviceModel::Venty
    }
}

/// A temperature between that of the room and the highest target.
pub open spec fn plausible(current: Single) -> bool {
    (Single { bits: ROOM }).le(current) && current.le(Single { bits: TEMP_MAX })
}

/// Powers of two around the steps of the simulation, in multiples of `2^122`.
pub proof fn lemma_step_powers()
    ensures
        pow2(122) > 0,
        pow2(124) == 4 * pow2(122),
        pow2(130) == 0x100 * pow2(122),
        pow2(132) == 0x400 * pow2(122),
        pow2(133) == 0x800 * pow2(122),
        pow2(145) == 0x80_0000 * pow2(122),
        pow2(147) == 0x200_0000 * pow2(122),
        pow2(149) == 0x800_0000 * pow2(122),
        pow2(150) == 0x1000_0000 * pow2(122),
        pow2(157) == 0x8_0000_0000 * pow2(122),
{
    lemma_pow2_pos(122);
    lemma2_to64();
    lemma_pow2_adds(2, 122);
    lemma_pow2_adds(8, 122);
    lemma_pow2_adds(10, 122);
    lemma_pow2_adds(11, 122);
    lemma_pow2_adds(23, 122);
    lemma_pow2_adds(25, 122);
    lemma_pow2_adds(27, 122);
    lemma_pow2_adds(28, 122);
    lemma_pow2_adds(24, 133);
    assert(pow2(157) == 0x100_0000 * (0x800 * pow2(122)));
}

/// A positive constant from its digits.
pub proof fn lemma_constant(x: Single, digits: nat, shift: nat)
    requires
        x.bits < 0x7f80_0000,
        x.bits >= 0x80_0000,
        x.bits / 0x80_0000 == shift + 1,
        0x80_0000 + x.bits % 0x80_0000 == digits,
    ensures
        x.is_finite(),
        !x.negative(),
        x.units() == digits * pow2(shift),
        x.signed_units() == digits * pow2(shift),
{
}

/// The constants are what their names say.
pub proof fn lemma_numbers()
    ensures
        (Single { bits: TWO }).is_finite(),
        (Single { bits: TWO }).signed_units() == pow2(150),
        (Single { bits: HEATING_MIN }).is_finite(),
        (Single { bits: HEATING_MIN }).signed_units() == 0x99_999a * pow2(124),
        (Single { bits: COOLING_MIN }).is_finite(),
        (Single { bits: COOLING_MIN }).signed_units() == 0xcc_cccd * pow2(122),
        (Single { bits: COOLING_MAX }).is_finite(),
        (Single { bits: COOLING_MAX }).signed_units() == pow2(149),
        (Single { bits: ROOM }).is_finite(),
        (Single { bits: ROOM }).signed_units() == 20 * pow2(149),
        (Single { bits: START }).is_finite(),
        (Single { bits: START }).signed_units() == 22 * pow2(149),
        (Single { bits: START_TARGET }).is_finite(),
        (Single { bits: START_TARGET }).signed_units() == 180 * pow2(149),
        (Single { bits: TEMP_MIN }).is_finite(),
        (Single { bits: TEMP_MIN }).signed_units() == 40 * pow2(149),
        (Single { bits: TEMP_MAX }).is_finite(),
        (Single { bits: TEMP_MAX }).signed_units() == 230 * pow2(149),
{
    lemma2_to64();
    lemma_constant(Single { bits: TWO }, 0x80_0000, 127);
    lemma_pow2_adds(23, 127);
    lemma_constant(Single { bits: HEATING_MIN }, 0x99_999a, 124);
    lemma_constant(Single { bits: COOLING_MIN }, 0xcc_cccd, 122);
    lemma_constant(Single { bits: COOLING_MAX }, 0x80_0000, 126);
    lemma_pow2_adds(23, 126);
    lemma_constant(Single { bits: ROOM }, 0xa0_0000, 130);
    lemma_pow2_adds(19, 130);
    lemma_constant(Single { bits: START }, 0xb0_0000, 130);
    lemma_constant(Single { bits: START_TARGET }, 0xb4_0000, 133);
    lemma_pow2_adds(16, 133);
    lemma_constant(Single { bits: TEMP_MIN }, 0xa0_0000, 131);
    lemma_pow2_adds(18, 131);
    lemma_constant(Single { bits: TEMP_MAX }, 0xe6_0000, 133);
}

/// Comparing finite numbers compares their values.
pub proof fn lemma_le(x: Single, y: Single)
    requires
        x.is_finite(),
        y.is_finite(),
    ensures
        x.le(y) <==> x.signed_units() <= y.signed_units(),
{
    crate::single::lemma_rank_orders_values(x, y);
}

/// A number between two finite ones is finite and lies between their values.
pub proof fn lemma_between(low: Single, x: Single, high: Single)
    requires
        low.is_finite(),
        high.is_finite(),
        low.le(x),
        x.le(high),
    ensures
        x.is_finite(),
        low.signed_units() <= x.signed_units() <= high.signed_units(),
{
    lemma_le(low, x);
    lemma_le(x, high);
}

/// The difference of two numbers is a number.
pub proof fn lemma_difference_is_number(x: Single, y: Single)
    requires
        x.is_finite(),
        y.is_finite(),
    ensures
        !x.difference(y).is_nan(),
        y.opposite().is_finite(),
        y.opposite().signed_units() == -y.signed_units(),
{
}

/// A heating step lies between 0.3 and 2 degrees.
proof fn lemma_heating_step(current: Single, target: Single)
    requires
        current.is_finite(),
        target.is_finite(),
    ensures
        heating_step(current, target).is_finite(),
        0x99_999a * pow2(124) <= heating_step(current, target).signed_units() <= pow2(150),
{
    let low = Single { bits: HEATING_MIN };
    let high = Single { bits: TWO };
    lemma_numbers();
    lemma_step_powers();
    lemma_difference_is_number(target, current);
    let part = target.difference(current).product(Single { bits: HEATING_RATE });
    assert(!part.is_nan());
    lemma_le(low, high);
    crate::accuracy::lemma_clamped_between(part, low, high);
    lemma_between(low, heating_step(current, target), high);
}

/// A cooling step lies between 0.1 and 1 degree.
proof fn lemma_cooling_step(current: Single)
    requires
        current.is_finite(),
    ensures
        cooling_step(current).is_finite(),
        0xcc_cccd * pow2(122) <= cooling_step(current).signed_units() <= pow2(149),
{
    let low = Single { bits: COOLING_MIN };
    let high = Single { bits: COOLING_MAX };
    lemma_numbers();
    lemma_step_powers();
    lemma_difference_is_number(current, Single { bits: ROOM });
    let part = current.difference(Single { bits: ROOM }).product(Single { bits: COOLING_RATE });
    assert(!part.is_nan());
    lemma_le(low, high);
    crate::accuracy::lemma_clamped_between(part, low, high);
    lemma_between(low, cooling_step(current), high);
}

/// A second of heating never goes above the target, and either reaches it or gains at least a
/// quarter of a degree. It gains two degrees at most, up to one rounding: half the last digit of
/// a number under 256, which is `2^-17` of a degree.
pub proof fn law_heating(current: Single, target: Single)
    requires
        plausible(current),
        crate::utils::in_range(target),
    ensures
        plausible(next_temperature(current, target, true)),
        next_temperature(current, target, true).le(target),
        next_temperature(current, target, true).signed_units() == target.signed_units()
            || next_temperature(current, target, true).signed_units() >= current.signed_units()
            + pow2(147),
        next_temperature(current, target, true).signed_units() <= current.signed_units() + pow2(150)
            + pow2(132),
{
    lemma_numbers();
    lemma_step_powers();
    lemma_between(Single { bits: ROOM }, current, Single { bits: TEMP_MAX });
    lemma_between(Single { bits: TEMP_MIN }, target, Single { bits: TEMP_MAX });
    lemma_heating_step(current, target);
    let step = heating_step(current, target);
    let total = current.signed_units() + step.signed_units();
    assert(0 < total < pow2(157));
    crate::accuracy::lemma_nearest_error(false, total as nat, 1, 133);
    let x = current.sum(step);
    assert(x == crate::single::nearest(false, total as nat, 1));
    lemma_le(x, target);
    let next = next_temperature(current, target, true);
    lemma_le(next, target);
    lemma_le(Single { bits: ROOM }, next);
    lemma_le(next, Single { bits: TEMP_MAX });
}

/// A second of cooling never goes below the room nor up, and either reaches the room or loses
/// at least a sixteenth of a degree.
pub proof fn law_cooling(current: Single, target: Single)
    requires
        plausible(current),
    ensures
        plausible(next_temperature(current, target, false)),
        next_temperature(current, target, false).le(current),
        next_temperature(current, target, false).signed_units() == 20 * pow2(149)
            || next_temperature(current, target, false).signed_units() <= current.signed_units()
            - pow2(145),
{
    let room = Single { bits: ROOM };
    lemma_numbers();
    lemma_step_powers();
    lemma_between(room, current, Single { bits: TEMP_MAX });
    lemma_cooling_step(current);
    let step = cooling_step(current);
    lemma_difference_is_number(current, step);
    let total = current.signed_units() - step.signed_units();
    assert(0 < total < pow2(157));
    crate::accuracy::lemma_nearest_error(false, total as nat, 1, 133);
    let x = current.difference(step);
    assert(x == crate::single::nearest(false, total as nat, 1));
    lemma_le(room, x);
    let next = next_temperature(current, target, false);
    lemma_le(next, current);
    lemma_le(room, next);
    lemma_le(next, Single { bits: TEMP_MAX });
}

/// A temperature of the room or above is a multiple of `2^130` units.
proof fn lemma_multiple(x: Single) -> (count: nat)
    requires
        plausible(x),
    ensures
        x.signed_units() == count * pow2(130),
{
    lemma_numbers();
    lemma_between(Single { bits: ROOM }, x, Single { bits: TEMP_MAX });
    assert(x.magnitude() >= ROOM);
    let above = (x.shift() - 130) as nat;
    let digits = x.significand();
    lemma_pow2_adds(above, 130);
    assert(digits * (pow2(above) * pow2(130)) == digits * pow2(above) * pow2(130))
        by (nonlinear_arith);
    digits * pow2(above)
}

/// Rounding does not move a gap of so many digits across two degrees.
proof fn lemma_rounded_gap(neg: bool, count: nat)
    requires
        count * pow2(130) < pow2(157),
    ensures
        crate::single::nearest(neg, count * pow2(130), 1).is_finite(),
        crate::single::nearest(neg, count * pow2(130), 1).units() <= pow2(150) <==> count * pow2(130)
            <= pow2(150),
{
    lemma_step_powers();
    let apart = count * pow2(130);
    if count < 0x100_0000 {
        crate::accuracy::lemma_nearest_exact(neg, count, 130);
    } else {
        crate::accuracy::lemma_nearest_error(neg, apart, 1, 133);
        vstd::arithmetic::mul::lemma_mul_inequality(
            0x100_0000,
            count as int,
            pow2(130) as int,
        );
    }
}

/// Whether two temperatures are two degrees apart at most is not blurred by rounding.
proof fn lemma_within_two(next: Single, target: Single)
    requires
        plausible(next),
        plausible(target),
    ensures
        next.difference(target).absolute().le(Single { bits: TWO }) <==> -pow2(150)
            <= next.signed_units() - target.signed_units() <= pow2(150),
{
    lemma_numbers();
    lemma_step_powers();
    lemma_between(Single { bits: ROOM }, next, Single { bits: TEMP_MAX });
    lemma_between(Single { bits: ROOM }, target, Single { bits: TEMP_MAX });
    lemma_difference_is_number(next, target);
    let a = lemma_multiple(next);
    let b = lemma_multiple(target);
    let neg = a < b;
    let count: nat = if neg {
        (b - a) as nat
    } else {
        (a - b) as nat
    };
    let gap = next.signed_units() - target.signed_units();
    vstd::arithmetic::mul::lemma_mul_is_distributive_sub_other_way(
        pow2(130) as int,
        a as int,
        b as int,
    );
    vstd::arithmetic::mul::lemma_mul_is_distributive_sub_other_way(
        pow2(130) as int,
        b as int,
        a as int,
    );
    assert(count * pow2(130) == if neg {
        -gap
    } else {
        gap
    });
    lemma_rounded_gap(neg, count);
    let d = next.difference(target);
    assert(gap != 0 ==> d == crate::single::nearest(neg, count * pow2(130), 1)) by {
        if neg {
            vstd::arithmetic::mul::lemma_mul_strictly_positive(count as int, pow2(130) as int);
        }
    }
    lemma_size(d);
    lemma_le(d.absolute(), Single { bits: TWO });
}

/// A number without its sign is as far from zero.
proof fn lemma_size(x: Single)
    requires
        x.is_finite(),
    ensures
        x.absolute().is_finite(),
        x.absolute().signed_units() == x.units(),
{
}

/// One second of the simulation. While heating, a temperature below the target rises, but not
/// above the target, and by two degrees at most, up to one rounding. Otherwise a temperature
/// above the room falls, but not below the room. The setpoint counts as reached exactly where the
/// new temperature is within two degrees of the target. What was commanded is shown.
pub proof fn law_tick(before: DeviceState, target: Single, heating: bool, pumping: bool)
    requires
        before.current_temp is Some,
        plausible(before.current_temp->0),
        crate::utils::in_range(target),
    ensures
        ({
            let after = state_after(before, target, heating, pumping);
            let current = before.current_temp->0.signed_units();
            let next = after.current_temp->0.signed_units();
            let goal = target.signed_units();
            &&& after.current_temp is Some
            &&& heating && current < goal ==> current < next <= goal && next - current <= pow2(150)
                + pow2(132)
            &&& !heating && current > 20 * pow2(149) ==> 20 * pow2(149) <= next < current
            &&& after.setpoint_reached <==> -pow2(150) <= next - goal <= pow2(150)
            &&& after.target_temp == Some(target)
            &&& after.heater_on == heating
            &&& after.pump_on == pumping
        }),
{
    let current = before.current_temp->0;
    let room = Single { bits: ROOM };
    let top = Single { bits: TEMP_MAX };
    lemma_numbers();
    lemma_step_powers();
    lemma_between(Single { bits: TEMP_MIN }, target, top);
    lemma_le(room, target);
    law_heating(current, target);
    law_cooling(current, target);
    let next = next_temperature(current, target, heating);
    lemma_between(room, current, top);
    lemma_between(room, next, top);
    lemma_le(next, target);
    lemma_within_two(next, target);
}

/// The temperature after a number of seconds of heating.
pub open spec fn heated(current: Single, target: Single, seconds: nat) -> Single
    decreases seconds,
{
    if seconds == 0 {
        current
    } else {
        next_temperature(heated(current, target, (seconds - 1) as nat), target, true)
    }
}

/// Heating reaches the target within four seconds for each degree that is missing, and stays
/// there.
pub proof fn law_heating_reaches_target(current: Single, target: Single, seconds: nat)
    requires
        plausible(current),
        crate::utils::in_range(target),
        seconds > 0,
        current.signed_units() + seconds * pow2(147) >= target.signed_units(),
    ensures
        heated(current, target, seconds).signed_units() == target.signed_units(),
{
    lemma_heated_bound(current, target, seconds);
    lemma_numbers();
    lemma_between(Single { bits: TEMP_MIN }, target, Single { bits: TEMP_MAX });
    lemma_between(
        Single { bits: ROOM },
        heated(current, target, seconds),
        Single { bits: TEMP_MAX },
    );
    lemma_le(heated(current, target, seconds), target);
}

proof fn lemma_heated_bound(current: Single, target: Single, seconds: nat)
    requires
        plausible(current),
        crate::utils::in_range(target),
    ensures
        plausible(heated(current, target, seconds)),
        seconds > 0 ==> heated(current, target, seconds).le(target),
        heated(current, target, seconds).signed_units() == target.signed_units() || heated(
            current,
            target,
            seconds,
        ).signed_units() >= current.signed_units() + seconds * pow2(147),
    decreases seconds,
{
    if seconds > 0 {
        let before = (seconds - 1) as nat;
        lemma_heated_bound(current, target, before);
        let x = heated(current, target, before);
        law_heating(x, target);
        lemma_numbers();
        lemma_step_powers();
        lemma_between(Single { bits: ROOM }, x, Single { bits: TEMP_MAX });
        lemma_between(Single { bits: TEMP_MIN }, target, Single { bits: TEMP_MAX });
        let next = heated(current, target, seconds);
        lemma_between(Single { bits: ROOM }, next, Single { bits: TEMP_MAX });
        lemma_le(next, target);
        assert(seconds * pow2(147) == before * pow2(147) + pow2(147)) by (nonlinear_arith)
            requires
                seconds == before + 1,
        ;
    } else {
        assert(seconds * pow2(147) == 0) by (nonlinear_arith)
            requires
                seconds == 0,
        ;
    }
}

/// Doubling a whole number is exact.
proof fn lemma_doubled(neg: bool, w: nat)
    requires
        w < 0x80_0000,
    ensures
        ({
            let z = crate::single::nearest(neg, w * pow2(149), 1);
            let p = z.product(Single { bits: TWO });
            &&& p.is_finite()
            &&& p.units() == 2 * w * pow2(149)
        }),
{
    let u = pow2(149);
    let z = crate::single::nearest(neg, w * u, 1);
    let two = Single { bits: TWO };
    lemma_numbers();
    lemma_step_powers();
    crate::accuracy::lemma_nearest_exact(neg, w, 149);
    let num = z.units() * two.units();
    assert(num == (2 * w * u) * u) by (nonlinear_arith)
        requires
            num == (w * u) * (2 * u),
    ;
    crate::rounding::lemma_cancel(2 * w * u, u);
    crate::accuracy::lemma_nearest_exact(neg, 2 * w, 149);
}

/// Twice a positive number is not less than what the number is not less than.
proof fn lemma_doubled_bound(z: Single, bound: nat)
    requires
        z.is_finite(),
        !z.negative(),
        bound <= z.units(),
    ensures
        !z.product(Single { bits: TWO }).is_nan(),
        z.product(Single { bits: TWO }).rank() >= crate::rounding::round_magnitude(bound, 1),
{
    let two = Single { bits: TWO };
    let u = pow2(149);
    let num = z.units() * two.units();
    assert(two.units() == 2 * u && u > 0 && two.is_finite() && !two.negative()) by {
        lemma_numbers();
        lemma_step_powers();
    }
    assert(bound * u <= num) by (nonlinear_arith)
        requires
            num == z.units() * (2 * u),
            z.units() >= bound,
            u > 0,
    ;
    crate::accuracy::lemma_round_monotonic(bound * u, num, u);
    crate::rounding::lemma_cancel(bound, u);
    crate::accuracy::lemma_nearest_is_number(false, num, u);
}

/// Doubling a positive number of 2^23 or more gives more than 230.
proof fn lemma_doubled_large(w: nat)
    requires
        w >= 0x80_0000,
    ensures
        ({
            let z = crate::single::nearest(false, w * pow2(149), 1);
            let p = z.product(Single { bits: TWO });
            (Single { bits: TEMP_MAX }).lt(p)
        }),
{
    let u = pow2(149);
    let max = Single { bits: TEMP_MAX };
    let z = crate::single::nearest(false, w * u, 1);
    lemma_numbers();
    lemma_step_powers();
    crate::accuracy::lemma_whole_exact(300);
    let least = crate::single::whole(300);
    crate::accuracy::lemma_nearest_is_number(false, 300 * u, 1);
    crate::accuracy::lemma_nearest_is_number(false, w * u, 1);
    lemma_le(least, max);
    assert(300 * u <= w * u) by (nonlinear_arith)
        requires
            w >= 300,
            u > 0,
    ;
    crate::accuracy::lemma_round_monotonic(300 * u, w * u, 1);
    if z.is_finite() {
        lemma_le(least, z);
        lemma_doubled_bound(z, 300 * u);
    }
}

/// A temperature of twice `half` degrees.
pub open spec fn is_twice(celsius: Single, half: nat) -> bool {
    celsius.is_finite() && celsius.signed_units() == 2 * half * pow2(149)
}

/// Half of a temperature in range is a number, so that halving does not round.
proof fn lemma_halved(celsius: Single)
    requires
        crate::utils::in_range(celsius),
    ensures
        ({
            let y = celsius.quotient(Single { bits: TWO });
            &&& y.is_finite()
            &&& !y.negative()
            &&& 2 * y.units() == celsius.signed_units()
        }),
{
    let two = Single { bits: TWO };
    let u = pow2(149);
    lemma_numbers();
    lemma_step_powers();
    lemma_between(Single { bits: TEMP_MIN }, celsius, Single { bits: TEMP_MAX });
    assert(celsius.magnitude() >= TEMP_MIN);
    assert(!two.is_zero());
    let digits = celsius.significand();
    let shift = (celsius.shift() - 1) as nat;
    let half = digits * pow2(shift);
    lemma2_to64();
    lemma_pow2_adds(1, shift);
    assert(celsius.units() == 2 * half) by (nonlinear_arith)
        requires
            celsius.units() == digits * pow2(shift + 1),
            pow2(shift + 1) == 2 * pow2(shift),
            half == digits * pow2(shift),
    ;
    assert(celsius.units() * u == half * (2 * u)) by (nonlinear_arith)
        requires
            celsius.units() == 2 * half,
    ;
    crate::rounding::lemma_cancel(half, 2 * u);
    crate::accuracy::lemma_nearest_exact(false, digits, shift);
}

/// The even number of degrees that is nearest to a temperature in range.
proof fn lemma_even_is_near(celsius: Single)
    requires
        crate::utils::in_range(celsius),
    ensures
        even_target(celsius).is_finite(),
        celsius.signed_units() - pow2(149) <= even_target(celsius).signed_units()
            <= celsius.signed_units() + pow2(149),
{
    let two = Single { bits: TWO };
    let low = Single { bits: TEMP_MIN };
    let high = Single { bits: TEMP_MAX };
    let u = pow2(149);
    lemma_numbers();
    lemma_step_powers();
    lemma_between(low, celsius, high);
    lemma_halved(celsius);
    let y = celsius.quotient(two);
    let w = y.nearest_whole();
    let asked = celsius.units();
    vstd::arithmetic::div_mod::lemma_fundamental_div_mod((asked + u) as int, 2 * u as int);
    vstd::arithmetic::div_mod::lemma_mod_bound((asked + u) as int, 2 * u as int);
    assert(w == (asked + u) / (2 * u));
    assert(2 * w * u == 2 * u * w) by (nonlinear_arith);
    assert(w < 0x80_0000) by (nonlinear_arith)
        requires
            2 * u * w <= asked + u,
            asked <= 230 * u,
            u > 0,
    ;
    lemma_doubled(false, w);
    let p = y.rounded().product(two);
    assert(20 <= w <= 115) by (nonlinear_arith)
        requires
            asked + u - 2 * u < 2 * u * w <= asked + u,
            40 * u <= asked <= 230 * u,
            u > 0,
    ;
    assert(40 * u <= 2 * w * u <= 230 * u) by (nonlinear_arith)
        requires
            20 <= w <= 115,
    ;
    lemma_le(low, p);
    lemma_le(p, high);
}

/// The target that is set is even and in range.
proof fn lemma_even_in_range(celsius: Single)
    requires
        !celsius.is_nan(),
    ensures
        crate::utils::in_range(even_target(celsius)),
        exists|half: nat| is_twice(even_target(celsius), half),
{
    let two = Single { bits: TWO };
    let low = Single { bits: TEMP_MIN };
    let high = Single { bits: TEMP_MAX };
    let u = pow2(149);
    lemma_numbers();
    lemma_step_powers();
    lemma_le(low, high);
    let y = celsius.quotient(two);
    let z = y.rounded();
    let p = z.product(two);
    let neg = celsius.negative();
    assert(!two.is_zero());
    assert(!y.is_nan() && y.negative() == neg);
    assert(!p.is_nan());
    crate::accuracy::lemma_clamped_between(p, low, high);
    let r = even_target(celsius);
    assert(r == low || r == high || r == p);
    if r == low {
        assert(is_twice(r, 20));
    } else if r == high {
        assert(is_twice(r, 115));
    } else {
        lemma_between(low, p, high);
        assert(!p.negative());
        assert(y.is_finite());
        let w = y.nearest_whole();
        assert(!neg);
        if w >= 0x80_0000 {
            lemma_doubled_large(w);
        }
        lemma_doubled(neg, w);
        assert(is_twice(r, w));
    }
}

/// The target that is set is an even number of degrees from 40 to 230, whatever number is
/// asked for. It is within one degree of a temperature in range.
pub proof fn law_even_target(celsius: Single)
    requires
        !celsius.is_nan(),
    ensures
        crate::utils::in_range(even_target(celsius)),
        exists|half: nat| is_twice(even_target(celsius), half),
        crate::utils::in_range(celsius) ==> celsius.signed_units() - pow2(149) <= even_target(
            celsius,
        ).signed_units() <= celsius.signed_units() + pow2(149),
{
    lemma_even_in_range(celsius);
    if crate::utils::in_range(celsius) {
        lemma_even_is_near(celsius);
    }
}

/// A new device is consistent.
pub proof fn law_fresh_is_consistent()
    ensures
        DummyDevice::fresh().consistent(),
{
    lemma_numbers();
    lemma_step_powers();
    lemma_le(Single { bits: ROOM }, Single { bits: START });
    lemma_le(Single { bits: START }, Single { bits: TEMP_MAX });
    lemma_le(Single { bits: TEMP_MIN }, Single { bits: START_TARGET });
    lemma_le(Single { bits: START_TARGET }, Single { bits: TEMP_MAX });
}

} // verus!
