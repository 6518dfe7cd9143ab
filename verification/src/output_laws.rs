//! What users read: every piece of information stands where its label says.
use crate::device::DeviceInfo;
use crate::device::DeviceModel;
use crate::device::DeviceSettings;
use crate::device::DeviceState;
use crate::device::HeaterMode;
use crate::error::Detail;
use crate::error::StorzError;
use crate::manager::ManagerPhase;
use crate::single::Single;
use crate::workflow::Workflow;
use crate::workflow::WorkflowStep;
use vstd::prelude::*;

verus! {

/// A line is a label and a word for a switch.
pub open spec fn tells_switch(line: String, label: Seq<char>, on: bool) -> bool {
    on && line@ == label + "on"@ || !on && line@ == label + "off"@
}

/// A line is a label and a temperature, or a question mark where there is none.
pub open spec fn tells_temperature(line: String, label: Seq<char>, t: Option<Single>) -> bool {
    &&& t is Some ==> line@ == label + (crate::shown::one_decimal(t->0) + "°C"@)
    &&& t is None ==> line@ == label + "?"@
}

/// A line is a label and a number with its unit, or a question mark where there is none.
pub open spec fn tells_number(line: String, label: Seq<char>, n: Option<u16>, unit: Seq<char>) -> bool {
    &&& n is Some ==> line@ == label + (crate::text::decimal(n->0 as nat) + unit)
    &&& n is None ==> line@ == label + "?"@
}

/// The names of the models.
pub proof fn law_model_names(model: DeviceModel, r: String)
    requires
        call_ensures(DeviceModel::name, (model,), r),
    ensures
        model is VolcanoHybrid ==> r@ == "Volcano Hybrid"@,
        model is Venty ==> r@ == "Venty"@,
        model is Veazy ==> r@ == "Veazy"@,
        model is Crafty ==> r@ == "Crafty"@,
{
}

/// The status tells the model, both temperatures, the heater and the pump, in this order.
pub proof fn law_status(model: DeviceModel, state: DeviceState, r: Vec<String>, name: String)
    requires
        call_ensures(crate::cli_output::status_lines, (model, &state), r),
        call_ensures(DeviceModel::name, (model,), name),
    ensures
        r@.len() == 5,
        r@[0]@ == "model:   "@ + name@,
        tells_temperature(r@[1], "current: "@, state.current_temp),
        tells_temperature(r@[2], "target:  "@, state.target_temp),
        tells_switch(r@[3], "heater:  "@, state.heater_on),
        tells_switch(r@[4], "pump:    "@, state.pump_on),
{
    let lines = crate::text::texts(r@);
    assert(lines.len() == r@.len());
    assert(forall|i: int| 0 <= i < lines.len() ==> #[trigger] lines[i] == r@[i]@);
}

/// The settings are told in this order, each by its own name.
pub proof fn law_config(
    settings: DeviceSettings,
    display: crate::cli_output::DisplaySettings,
    r: Vec<String>,
)
    requires
        call_ensures(crate::cli_output::config_lines, (&settings, &display), r),
    ensures
        r@.len() == 5,
        tells_number(r@[0], "brightness:         "@, display.brightness, ""@),
        tells_switch(r@[1], "setpoint-alert:     "@, settings.vibration),
        tells_switch(r@[2], "display-on-cooling: "@, display.display_on_cooling),
        tells_number(r@[3], "shutoff:            "@, display.shutoff_seconds, "s"@),
        settings.is_celsius ==> r@[4]@ == "unit:               "@ + "C"@,
        !settings.is_celsius ==> r@[4]@ == "unit:               "@ + "F"@,
{
    let lines = crate::text::texts(r@);
    assert(lines.len() == r@.len());
    assert(forall|i: int| 0 <= i < lines.len() ==> #[trigger] lines[i] == r@[i]@);
}

/// A device information tells the model first, and each known text behind its own label. The time
/// of heating comes last, where hours and minutes are both known.
#[verifier::rlimit(40)]
pub proof fn law_info(model: DeviceModel, known: DeviceInfo, r: Vec<String>, name: String)
    requires
        call_ensures(crate::cli_output::info_lines, (model, &known), r),
        call_ensures(DeviceModel::name, (model,), name),
    ensures
        ({
            let serial: int = if known.serial_number is Some {
                1
            } else {
                0
            };
            let firmware: int = if known.firmware_version is Some {
                serial + 1
            } else {
                serial
            };
            let ble: int = if known.firmware_ble_version is Some {
                firmware + 1
            } else {
                firmware
            };
            let heating = known.hours_of_heating is Some && known.minutes_of_heating is Some;
            &&& r@[0]@ == "model:    "@ + name@
            &&& known.serial_number is Some ==> r@[serial]@ == "serial:   "@ + known.serial_number->0@
            &&& known.firmware_version is Some ==> r@[firmware]@ == "firmware: "@
                + known.firmware_version->0@
            &&& known.firmware_ble_version is Some ==> r@[ble]@ == "ble fw:   "@
                + known.firmware_ble_version->0@
            &&& heating ==> r@[ble + 1]@ == "heating:  "@ + crate::text::decimal(
                known.hours_of_heating->0 as nat,
            ) + "h "@ + crate::text::decimal(known.minutes_of_heating->0 as nat) + "m"@
            &&& r@.len() == if heating {
                ble + 2
            } else {
                ble + 1
            }
        }),
{
    let lines = crate::text::texts(r@);
    assert(lines.len() == r@.len());
    assert(forall|i: int| 0 <= i < lines.len() ==> lines[i] == (#[trigger] r@[i])@);
    let k = known@;
    assert(k.serial_number == crate::text::text_of(known.serial_number));
    assert(k.firmware_version == crate::text::text_of(known.firmware_version));
    assert(k.firmware_ble_version == crate::text::text_of(known.firmware_ble_version));
    let l0 = seq!["model:    "@ + model.label()];
    let l1 = crate::cli_output::optional_line(l0, "serial:   "@, k.serial_number);
    let l2 = crate::cli_output::optional_line(l1, "firmware: "@, k.firmware_version);
    let l3 = crate::cli_output::optional_line(l2, "ble fw:   "@, k.firmware_ble_version);
    assert(lines[0] == l0[0]);
}

/// The two temperatures are told in this order.
pub proof fn law_temperatures(current: Single, target: Single, both: String, progress: String)
    requires
        call_ensures(crate::cli_output::temperatures_line, (current, target), both),
        call_ensures(crate::cli_output::progress_line, (current, target), progress),
    ensures
        both@ == "current "@ + crate::shown::one_decimal(current) + "°C → target "@
            + crate::shown::one_decimal(target) + "°C"@,
        progress@ == crate::shown::one_decimal(current) + "°C / "@ + crate::shown::one_decimal(
            target,
        ) + "°C"@,
{
}

/// The lines around waiting and workflows.
pub proof fn law_other_lines(t: Single, n: usize, reached: String, workflow: String)
    requires
        call_ensures(crate::cli_output::reached_line, (t,), reached),
        call_ensures(crate::cli_output::workflow_line, (n,), workflow),
    ensures
        reached@ == "reached "@ + crate::shown::one_decimal(t) + "°C"@,
        workflow@ == "running workflow: "@ + crate::text::decimal(n as nat) + " step(s)"@,
{
}

/// The tools answer with what was set. Waiting takes five minutes unless another time is asked for.
pub proof fn law_tool_answers(
    on: bool,
    n: u16,
    t: Single,
    heater: String,
    pump: String,
    brightness: String,
    target: String,
    late: String,
)
    requires
        call_ensures(crate::mcp::heater_answer, (on,), heater),
        call_ensures(crate::mcp::pump_answer, (on,), pump),
        call_ensures(crate::mcp::brightness_answer, (n,), brightness),
        call_ensures(crate::mcp::target_answer, (t,), target),
        call_ensures(crate::mcp::wait_timeout_text, (t,), late),
    ensures
        tells_switch(heater, "heater "@, on),
        tells_switch(pump, "pump "@, on),
        brightness@ == "brightness "@ + crate::text::decimal(n as nat),
        target@ == "target set to "@ + crate::shown::one_decimal(t) + "°C"@,
        late@ == "timed out waiting for "@ + crate::shown::one_decimal(t) + "°C"@,
{
}

/// A tool waits as long as asked, five minutes by default, and runs the steps that it was given, in
/// their order.
pub proof fn law_tools(
    asked: Option<u64>,
    seconds: u64,
    steps: &[WorkflowStep],
    w: Workflow,
    count: usize,
    answer: String,
)
    requires
        call_ensures(crate::mcp::wait_seconds, (asked,), seconds),
        call_ensures(crate::mcp::workflow_of, (steps,), w),
        call_ensures(crate::mcp::workflow_answer, (count,), answer),
    ensures
        asked is Some ==> seconds == asked->0,
        asked is None ==> seconds == 300,
        w.steps@ == steps@,
        w.name@ == "mcp"@,
        answer@ == "workflow complete ("@ + crate::text::decimal(count as nat) + " steps)"@,
{
}

/// Why there is no connection depends on how far it got.
pub proof fn law_connect_problem(phase: ManagerPhase, reason: &str, r: String)
    requires
        call_ensures(crate::mcp::connect_problem, (phase, reason), r),
    ensures
        phase is FindingAdapter ==> r@ == "no BLE adapter: "@ + reason@,
        phase is Scanning ==> r@ == "no Storz & Bickel device found (is it powered on?): "@ + reason@,
        !(phase is FindingAdapter) && !(phase is Scanning) ==> r@ == "connect failed: "@ + reason@,
{
}

/// How errors read.
pub proof fn law_error_words(e: StorzError, number: &str, r: String)
    requires
        call_ensures(StorzError::message, (&e, number), r),
    ensures
        e matches StorzError::Bluetooth(s) ==> r@ == "Bluetooth error: "@ + s@,
        e is DeviceNotFound ==> r@ == "Device not found"@,
        e matches StorzError::UnsupportedOperation { device, operation } ==> r@
            == "Unsupported operation '"@ + operation@ + "' for device '"@ + device@ + "'"@,
        e matches StorzError::ParseError(Detail::Text(s)) ==> r@ == "Parse error: "@ + s@,
        e matches StorzError::ParseError(Detail::OutOfRange { celsius }) ==> r@ == "Parse error: "@ + (
        "Temperature "@ + number@ + "°C out of range (40–230°C)"@),
        e is Timeout ==> r@ == "Operation timed out"@,
        e is NotConnected ==> r@ == "Not connected to device"@,
        e matches StorzError::Other(s) ==> r@ == s@,
{
}

/// The bytes of the heater modes count up from off, and a byte that is none of them is off.
pub proof fn law_mode_bytes(b: u8, mode: HeaterMode, code: u8, name: String)
    requires
        call_ensures(HeaterMode::from_u8, (b,), mode),
        call_ensures(HeaterMode::as_u8, (mode,), code),
        call_ensures(HeaterMode::name, (mode,), name),
    ensures
        b < 4 ==> code == b,
        b >= 4 ==> code == 0,
        b == 1 ==> mode is Normal && name@ == "normal"@,
        b == 2 ==> mode is Boost && name@ == "boost"@,
        b == 3 ==> mode is SuperBoost && name@ == "superboost"@,
        b == 0 || b >= 4 ==> mode is Off && name@ == "off"@,
{
}

/// The battery and the charger are known exactly where the settings are.
pub proof fn law_battery(state: DeviceState, level: Option<u8>, charging: Option<bool>)
    requires
        call_ensures(DeviceState::get_battery_level, (&state,), level),
        call_ensures(DeviceState::get_is_charging, (&state,), charging),
    ensures
        state.settings is None ==> level is None && charging is None,
        state.settings is Some ==> level == state.settings->0.battery_level && charging == Some(
            state.settings->0.is_charging,
        ),
{
}

/// A word for a truth value.
pub open spec fn word(b: bool) -> Seq<char> {
    if b {
        "true"@
    } else {
        "false"@
    }
}

/// The one line about a state tells heater, pump and fan and both temperatures, in this order.
pub proof fn law_describe(state: DeviceState, current: &str, target: &str, r: String)
    requires
        call_ensures(DeviceState::describe, (&state, current, target), r),
    ensures
        r@ == "State(heater="@ + word(state.heater_on) + ", pump="@ + word(state.pump_on) + ", fan="@
            + word(state.fan_on) + ", current="@ + current@ + "°C, target="@ + target@ + "°C)"@,
{
}

/// Where nothing is known, everything is unknown or off.
pub proof fn law_defaults(state: DeviceState, settings: DeviceSettings, info: DeviceInfo)
    requires
        call_ensures(DeviceState::default, (), state),
        call_ensures(DeviceSettings::default, (), settings),
        call_ensures(DeviceInfo::default, (), info),
    ensures
        state.current_temp is None && state.target_temp is None && state.boost_temp is None
            && state.super_boost_temp is None && state.heater_mode is None && state.raw_activity is None
            && state.settings is None,
        !state.heater_on && !state.pump_on && !state.fan_on && !state.setpoint_reached,
        !settings.is_celsius && !settings.setpoint_reached && !settings.boost_visualization
            && !settings.charge_current_optimization && !settings.charge_voltage_limit
            && !settings.permanent_bluetooth && !settings.vibration && !settings.is_charging,
        settings.auto_shutdown_seconds is None && settings.battery_level is None,
        info.serial_number is None && info.firmware_version is None && info.firmware_ble_version
            is None,
        info.color_index is None && info.heater_runtime_minutes is None
            && info.battery_charging_time_minutes is None && info.hours_of_heating is None
            && info.minutes_of_heating is None,
{
    assert(info@ == crate::device::InfoView::blank());
    assert(crate::text::text_of(info.serial_number) is None);
    assert(crate::text::text_of(info.firmware_version) is None);
    assert(crate::text::text_of(info.firmware_ble_version) is None);
}

/// A characteristic that the device has is written to with these bytes, and one that it has not is
/// reported by its identifier.
pub proof fn law_missing_characteristic(
    list: &[u128],
    uuid: u128,
    bytes: &[u8],
    r: Result<crate::gatt::CharacteristicWrite, StorzError>,
)
    requires
        call_ensures(crate::gatt::write_to, (list, uuid, bytes), r),
    ensures
        r is Ok <==> exists|i: int| 0 <= i < list@.len() && list@[i] == uuid,
        r is Ok ==> r->Ok_0.uuid == uuid && r->Ok_0.bytes@ == bytes@,
        r is Err ==> r->Err_0@ == crate::error::unparsed(
            "Characteristic "@ + crate::gatt::hyphenated(uuid) + " not found"@,
        ),
{
}

/// A text is read from bytes exactly where they are UTF-8, and the refusal says why they are not.
pub proof fn law_read_string(data: Vec<u8>, r: Result<String, StorzError>)
    requires
        call_ensures(crate::gatt::read_string, (data,), r),
    ensures
        r is Ok <==> vstd::utf8::valid_utf8(data@),
        r matches Ok(text) ==> text@ == vstd::utf8::decode_utf8(data@),
        r matches Err(e) ==> e@ == crate::error::unparsed(
            "Invalid UTF-8: "@ + crate::text::utf8_refusal(data@),
        ),
{
}

} // verus!
