//! Which operations each model has.
use crate::device::DeviceModel;
use crate::error::StorzError;
use vstd::prelude::*;
use vstd::string::*;

verus! {

/// An operation that some model lacks.
#[derive(Debug, Clone, Copy, PartialEq, Eq, Structural)]
pub enum Operation {
    PumpOn,
    PumpOff,
    GetSettings,
    SetTemperatureUnit,
    SetVibration,
    SetBoostTemperature,
    SetSuperBoostTemperature,
    SetAutoShutdownTimer,
    SetHeaterMode,
    FactoryReset,
    SetBoostVisualization,
    SetChargeCurrentOptimization,
    SetChargeVoltageLimit,
    SetPermanentBluetooth,
    SetBoostTimeout,
    FindMyDevice,
    SetShutoffTime,
    SetDisplayOnCooling,
    SetAutoOffCountdown,
    GetProjectRegister,
    SetSecurityCode,
}

impl Operation {
    /// How the operation is called.
    pub open spec fn label(self) -> Seq<char> {
        match self {
            Operation::PumpOn => "pump_on"@,
            Operation::PumpOff => "pump_off"@,
            Operation::GetSettings => "get_settings"@,
            Operation::SetTemperatureUnit => "set_temperature_unit"@,
            Operation::SetVibration => "set_vibration"@,
            Operation::SetBoostTemperature => "set_boost_temperature"@,
            Operation::SetSuperBoostTemperature => "set_super_boost_temperature"@,
            Operation::SetAutoShutdownTimer => "set_auto_shutdown_timer"@,
            Operation::SetHeaterMode => "set_heater_mode"@,
            Operation::FactoryReset => "factory_reset"@,
            Operation::SetBoostVisualization => "set_boost_visualization"@,
            Operation::SetChargeCurrentOptimization => "set_charge_current_optimization"@,
            Operation::SetChargeVoltageLimit => "set_charge_voltage_limit"@,
            Operation::SetPermanentBluetooth => "set_permanent_bluetooth"@,
            Operation::SetBoostTimeout => "set_boost_timeout"@,
            Operation::FindMyDevice => "find_my_device"@,
            Operation::SetShutoffTime => "set_shutoff_time"@,
            Operation::SetDisplayOnCooling => "set_display_on_cooling"@,
            Operation::SetAutoOffCountdown => "set_auto_off_countdown"@,
            Operation::GetProjectRegister => "get_project_register"@,
            Operation::SetSecurityCode => "set_security_code"@,
        }
    }

    /// The operation's name.
    pub fn name(self) -> (r: &'static str)
        ensures
            r@ == self.label(),
    {
        match self {
            Operation::PumpOn => "pump_on",
            Operation::PumpOff => "pump_off",
            Operation::GetSettings => "get_settings",
            Operation::SetTemperatureUnit => "set_temperature_unit",
            Operation::SetVibration => "set_vibration",
            Operation::SetBoostTemperature => "set_boost_temperature",
            Operation::SetSuperBoostTemperature => "set_super_boost_temperature",
            Operation::SetAutoShutdownTimer => "set_auto_shutdown_timer",
            Operation::SetHeaterMode => "set_heater_mode",
            Operation::FactoryReset => "factory_reset",
            Operation::SetBoostVisualization => "set_boost_visualization",
            Operation::SetChargeCurrentOptimization => "set_charge_current_optimization",
            Operation::SetChargeVoltageLimit => "set_charge_voltage_limit",
            Operation::SetPermanentBluetooth => "set_permanent_bluetooth",
            Operation::SetBoostTimeout => "set_boost_timeout",
            Operation::FindMyDevice => "find_my_device",
            Operation::SetShutoffTime => "set_shutoff_time",
            Operation::SetDisplayOnCooling => "set_display_on_cooling",
            Operation::SetAutoOffCountdown => "set_auto_off_countdown",
            Operation::GetProjectRegister => "get_project_register",
            Operation::SetSecurityCode => "set_security_code",
        }
    }
}

/// Venty and Veazy share one protocol.
pub open spec fn is_handheld(model: DeviceModel) -> bool {
    model == DeviceModel::Venty || model == DeviceModel::Veazy
}

/// Whether a model has an operation.
pub open spec fn supports(model: DeviceModel, operation: Operation) -> bool {
    match operation {
        Operation::PumpOn | Operation::PumpOff => model == DeviceModel::VolcanoHybrid,
        Operation::SetShutoffTime | Operation::SetDisplayOnCooling => {
            model == DeviceModel::VolcanoHybrid
        },
        Operation::SetTemperatureUnit | Operation::SetVibration | Operation::SetAutoShutdownTimer => {
            model != DeviceModel::Crafty
        },
        Operation::SetBoostTemperature | Operation::FactoryReset => {
            model != DeviceModel::VolcanoHybrid
        },
        Operation::SetAutoOffCountdown
        | Operation::GetProjectRegister
        | Operation::SetSecurityCode => model == DeviceModel::Crafty,
        _ => is_handheld(model),
    }
}

/// Lets an operation through that the model has, and refuses any other by name.
pub fn check_support(model: DeviceModel, operation: Operation) -> (r: Result<(), StorzError>)
    ensures
        r is Ok <==> supports(model, operation),
        r matches Err(e) ==> e@ == crate::error::unsupported(model.label(), operation.label()),
{
    let volcano = model == DeviceModel::VolcanoHybrid;
    let crafty = model == DeviceModel::Crafty;
    let supported = match operation {
        Operation::PumpOn | Operation::PumpOff => volcano,
        Operation::SetShutoffTime | Operation::SetDisplayOnCooling => volcano,
        Operation::SetTemperatureUnit
        | Operation::SetVibration
        | Operation::SetAutoShutdownTimer => !crafty,
        Operation::SetBoostTemperature | Operation::FactoryReset => !volcano,
        Operation::SetAutoOffCountdown
        | Operation::GetProjectRegister
        | Operation::SetSecurityCode => crafty,
        _ => !volcano && !crafty,
    };
    if supported {
        Ok(())
    } else {
        Err(
            StorzError::UnsupportedOperation {
                device: model.name(),
                operation: operation.name().to_owned(),
            },
        )
    }
}

/// Only the Volcano Hybrid has a pump.
pub proof fn law_pump_only_on_volcano(model: DeviceModel)
    ensures
        supports(model, Operation::PumpOn) <==> model == DeviceModel::VolcanoHybrid,
        supports(model, Operation::PumpOff) <==> model == DeviceModel::VolcanoHybrid,
{
}

/// Venty and Veazy have the same operations.
pub proof fn law_veazy_as_venty(operation: Operation)
    ensures
        supports(DeviceModel::Venty, operation) == supports(DeviceModel::Veazy, operation),
{
}

} // verus!
