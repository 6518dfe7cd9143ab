//! What the commands of the command line do to a device, and what they report.
use crate::cli::Call;
use crate::cli::Command;
use crate::cli::Plan;
use crate::single::Single;
use vstd::prelude::*;

verus! {

/// A device as the command line can set it.
pub struct Panel {
    pub target: Single,
    pub heater: bool,
    pub pump: bool,
    pub brightness: u16,
    pub vibration: bool,
    pub shutoff: u16,
    pub celsius: bool,
    pub display_on_cooling: bool,
}

/// A device that was told something.
pub open spec fn told(p: Panel, call: Call) -> Panel {
    match call {
        Call::SetTarget(target) => Panel { target, ..p },
        Call::Heater(heater) => Panel { heater, ..p },
        Call::Pump(pump) => Panel { pump, ..p },
        Call::Brightness(brightness) => Panel { brightness, ..p },
        Call::Vibration(vibration) => Panel { vibration, ..p },
        Call::Shutoff(shutoff) => Panel { shutoff, ..p },
        Call::Unit { celsius } => Panel { celsius, ..p },
        Call::DisplayOnCooling(display_on_cooling) => Panel { display_on_cooling, ..p },
    }
}

/// The plan tells the device something that brings `p` to `after`, and reports it in these words.
pub open spec fn brings(plan: Plan, p: Panel, after: Panel, words: Seq<char>) -> bool {
    plan matches Plan::Tell { call, report } && told(p, call) == after && report@ == words
}

/// The plan refuses the command in these words.
pub open spec fn refuses(plan: Plan, words: Seq<char>) -> bool {
    plan matches Plan::Refuse { reason } && reason@ == words
}

/// A switch command sets its own switch to the value that was asked for and nothing else, and
/// reports that value.
pub proof fn law_switch_commands(on: bool, heat: Plan, pump: Plan, vibration: Plan, p: Panel)
    requires
        call_ensures(crate::cli::plan, (&Command::Heat { on },), heat),
        call_ensures(crate::cli::plan, (&Command::Pump { on },), pump),
        call_ensures(crate::cli::plan, (&Command::Vibration { on },), vibration),
    ensures
        on ==> brings(heat, p, Panel { heater: true, ..p }, "heater "@ + "on"@),
        !on ==> brings(heat, p, Panel { heater: false, ..p }, "heater "@ + "off"@),
        on ==> brings(pump, p, Panel { pump: true, ..p }, "pump "@ + "on"@),
        !on ==> brings(pump, p, Panel { pump: false, ..p }, "pump "@ + "off"@),
        on ==> brings(vibration, p, Panel { vibration: true, ..p }, "vibration "@ + "on"@),
        !on ==> brings(vibration, p, Panel { vibration: false, ..p }, "vibration "@ + "off"@),
{
}

/// A command with a value sets that very value and nothing else, and reports it.
pub proof fn law_value_commands(t: Single, n: u16, temp: Plan, brightness: Plan, shutoff: Plan, p: Panel)
    requires
        call_ensures(crate::cli::plan, (&Command::SetTemp(t),), temp),
        call_ensures(crate::cli::plan, (&Command::Brightness(n),), brightness),
        call_ensures(crate::cli::plan, (&Command::Shutoff(n),), shutoff),
    ensures
        brings(
            temp,
            p,
            Panel { target: t, ..p },
            "target set to "@ + crate::shown::one_decimal(t) + "°C"@,
        ),
        brings(
            brightness,
            p,
            Panel { brightness: n, ..p },
            "brightness "@ + crate::text::decimal(n as nat),
        ),
        brings(
            shutoff,
            p,
            Panel { shutoff: n, ..p },
            "shutoff "@ + crate::text::decimal(n as nat) + "s"@,
        ),
{
}

/// The unit command means Celsius where its word begins with a c, and Fahrenheit otherwise.
pub proof fn law_unit_command(unit: String, r: Plan, p: Panel)
    requires
        call_ensures(crate::cli::plan, (&Command::Unit { unit },), r),
    ensures
        unit@.len() > 0 && unit@[0] == 'c' ==> brings(
            r,
            p,
            Panel { celsius: true, ..p },
            "unit "@ + "celsius"@,
        ),
        !(unit@.len() > 0 && unit@[0] == 'c') ==> brings(
            r,
            p,
            Panel { celsius: false, ..p },
            "unit "@ + "fahrenheit"@,
        ),
{
}

/// The commands that show something, wait, fill or run a workflow come to that, with what they
/// were given.
pub proof fn law_other_commands(
    seconds: u64,
    pulse: Option<u64>,
    rest: u64,
    steps: String,
    celsius: Option<Single>,
    plans: Seq<Plan>,
)
    requires
        plans.len() == 8,
        call_ensures(crate::cli::plan, (&Command::Status,), plans[0]),
        call_ensures(crate::cli::plan, (&Command::ShowTemp,), plans[1]),
        call_ensures(crate::cli::plan, (&Command::Watch,), plans[2]),
        call_ensures(crate::cli::plan, (&Command::Info,), plans[3]),
        call_ensures(crate::cli::plan, (&Command::Fill { seconds, pulse, rest },), plans[4]),
        call_ensures(crate::cli::plan, (&Command::Workflow { steps },), plans[5]),
        call_ensures(crate::cli::plan, (&Command::WaitTemp { celsius },), plans[6]),
        call_ensures(crate::cli::plan, (&Command::Config { key: None, value: None },), plans[7]),
    ensures
        plans[0] == Plan::ShowStatus,
        plans[1] == Plan::ShowTemperatures,
        plans[2] == Plan::Watch,
        plans[3] == Plan::ShowInfo,
        plans[4] matches Plan::Pump(fill) && fill.seconds == seconds && fill.pulse == pulse
            && fill.rest == rest && fill.pumped == 0,
        plans[5] matches Plan::RunWorkflow { steps: s } && s@ == steps@,
        plans[6] == (Plan::Wait { celsius }),
        plans[7] == Plan::ShowConfig,
{
    assert(plans[0]@ is ShowStatus && plans[1]@ is ShowTemperatures && plans[2]@ is Watch);
    assert(plans[3]@ is ShowInfo && plans[4]@ is Pump && plans[5]@ is RunWorkflow);
    assert(plans[6]@ is Wait && plans[7]@ is ShowConfig);
}

/// The names of the settings are all different.
proof fn lemma_keys()
    ensures
        "brightness"@ != "setpoint-alert"@,
        "brightness"@ != "vibration"@,
        "brightness"@ != "display-on-cooling"@,
        "brightness"@ != "shutoff"@,
        "brightness"@ != "unit"@,
        "setpoint-alert"@ != "display-on-cooling"@,
        "setpoint-alert"@ != "shutoff"@,
        "setpoint-alert"@ != "unit"@,
        "vibration"@ != "display-on-cooling"@,
        "vibration"@ != "shutoff"@,
        "vibration"@ != "unit"@,
        "display-on-cooling"@ != "shutoff"@,
        "display-on-cooling"@ != "unit"@,
        "shutoff"@ != "unit"@,
{
    reveal_strlit("brightness");
    reveal_strlit("setpoint-alert");
    reveal_strlit("vibration");
    reveal_strlit("display-on-cooling");
    reveal_strlit("shutoff");
    reveal_strlit("unit");
    assert("brightness"@.len() == 10 && "setpoint-alert"@.len() == 14 && "vibration"@.len() == 9
        && "display-on-cooling"@.len() == 18 && "shutoff"@.len() == 7 && "unit"@.len() == 4);
}

/// The words for on and off are all different.
proof fn lemma_words()
    ensures
        "off"@ != "on"@ && "off"@ != "true"@ && "off"@ != "yes"@,
        "false"@ != "on"@ && "false"@ != "true"@ && "false"@ != "yes"@,
        "no"@ != "on"@ && "no"@ != "true"@ && "no"@ != "yes"@,
{
    reveal_strlit("on");
    reveal_strlit("true");
    reveal_strlit("yes");
    reveal_strlit("off");
    reveal_strlit("false");
    reveal_strlit("no");
    assert("off"@[0] == 'o' && "yes"@[0] == 'y' && "no"@[0] == 'n' && "on"@[0] == 'o');
    assert("on"@.len() == 2 && "true"@.len() == 4 && "yes"@.len() == 3);
    assert("off"@.len() == 3 && "false"@.len() == 5 && "no"@.len() == 2);
}

/// A setting that is a switch is set to the value that its word means and nothing else: on, true
/// and yes, or off, false and no. Any other word is refused.
pub proof fn law_switch_settings(key: String, value: String, r: Plan, p: Panel)
    requires
        call_ensures(
            crate::cli::plan,
            (&Command::Config { key: Some(key), value: Some(value) },),
            r,
        ),
        key@ == "setpoint-alert"@ || key@ == "vibration"@ || key@ == "display-on-cooling"@,
    ensures
        ({
            let on = value@ == "on"@ || value@ == "true"@ || value@ == "yes"@;
            let off = value@ == "off"@ || value@ == "false"@ || value@ == "no"@;
            let words = key@ + " set to "@ + value@;
            &&& on && key@ == "display-on-cooling"@ ==> brings(
                r,
                p,
                Panel { display_on_cooling: true, ..p },
                words,
            )
            &&& off && key@ == "display-on-cooling"@ ==> brings(
                r,
                p,
                Panel { display_on_cooling: false, ..p },
                words,
            )
            &&& on && key@ != "display-on-cooling"@ ==> brings(
                r,
                p,
                Panel { vibration: true, ..p },
                words,
            )
            &&& off && key@ != "display-on-cooling"@ ==> brings(
                r,
                p,
                Panel { vibration: false, ..p },
                words,
            )
            &&& !on && !off ==> refuses(r, key@ + " takes on|off, got "@ + value@)
        }),
{
    lemma_keys();
    lemma_words();
    assert(r@ is Tell || r@ is Refuse);
}

/// A setting that is a number is set to the number that was written and nothing else, and what is
/// no number of two bytes is refused.
pub proof fn law_number_settings(key: String, value: String, n: u16, r: Plan, p: Panel)
    requires
        call_ensures(
            crate::cli::plan,
            (&Command::Config { key: Some(key), value: Some(value) },),
            r,
        ),
        key@ == "brightness"@ || key@ == "shutoff"@,
    ensures
        value@ == crate::text::decimal(n as nat) && key@ == "brightness"@ ==> brings(
            r,
            p,
            Panel { brightness: n, ..p },
            key@ + " set to "@ + value@,
        ),
        value@ == crate::text::decimal(n as nat) && key@ == "shutoff"@ ==> brings(
            r,
            p,
            Panel { shutoff: n, ..p },
            key@ + " set to "@ + value@,
        ),
        crate::text::unsigned_value(value@, 0xffff) is None ==> refuses(
            r,
            if key@ == "brightness"@ {
                "brightness takes 0-100"@
            } else {
                "shutoff takes seconds"@
            },
        ),
{
    lemma_keys();
    crate::text::law_decimal_round_trip(n as nat, 0xffff);
    assert(r@ is Tell || r@ is Refuse);
}

/// The setting of the unit means Celsius for c, C and celsius, and Fahrenheit for any other word.
/// A setting without a value, or one that there is not, is refused by its name.
pub proof fn law_other_settings(key: String, value: String, r: Plan, bare: Plan, p: Panel)
    requires
        call_ensures(
            crate::cli::plan,
            (&Command::Config { key: Some(key), value: Some(value) },),
            r,
        ),
        call_ensures(crate::cli::plan, (&Command::Config { key: Some(key), value: None },), bare),
    ensures
        key@ == "unit"@ && (value@ == "c"@ || value@ == "C"@ || value@ == "celsius"@) ==> brings(
            r,
            p,
            Panel { celsius: true, ..p },
            key@ + " set to "@ + value@,
        ),
        key@ == "unit"@ && !(value@ == "c"@ || value@ == "C"@ || value@ == "celsius"@) ==> brings(
            r,
            p,
            Panel { celsius: false, ..p },
            key@ + " set to "@ + value@,
        ),
        key@ != "brightness"@ && key@ != "setpoint-alert"@ && key@ != "vibration"@ && key@
            != "display-on-cooling"@ && key@ != "shutoff"@ && key@ != "unit"@ ==> refuses(
            r,
            "unknown setting "@ + key@,
        ),
        refuses(bare, key@ + " needs a value"@),
{
    lemma_keys();
    assert(r@ is Tell || r@ is Refuse);
    assert(bare@ is Refuse);
}

/// A fill in one go pumps all its seconds at once; a pulsed one pumps its pulse, at least a second,
/// or what is left of its seconds where that is less, and rests as asked for before every burst but
/// the first.
pub proof fn law_bursts(f: crate::cli::Fill)
    requires
        f.wf(),
    ensures
        f.pulse is None ==> f.burst() == f.seconds - f.pumped,
        f.pulse matches Some(p) ==> {
            &&& f.burst() == f.seconds - f.pumped || (p >= 1 && f.burst() == p) || (p == 0
                && f.burst() == 1)
            &&& f.burst() <= f.seconds - f.pumped
            &&& p >= 1 ==> f.burst() <= p
            &&& p == 0 ==> f.burst() <= 1
        },
        f.phase == crate::cli::FillPhase::Between && f.pulse is Some && 0 < f.pumped < f.seconds ==> {
            &&& f.step().1 == (crate::cli::FillActionView::Sleep { seconds: f.rest })
            &&& f.step().0.step().1 == crate::cli::FillActionView::PumpOn
        },
        f.phase == crate::cli::FillPhase::Between && f.pumped == 0 && (f.pulse is None || f.seconds
            > 0) ==> f.step().1 == crate::cli::FillActionView::PumpOn,
        f.phase == crate::cli::FillPhase::Off && f.pulse is None ==> f.step().1
            == crate::cli::FillActionView::Say(
            "pumped for "@ + crate::text::decimal(f.seconds as nat) + "s"@,
        ),
        f.phase == crate::cli::FillPhase::Off && f.pulse is Some ==> f.step().1
            == crate::cli::FillActionView::Say(
            crate::text::decimal((f.pumped + f.burst()) as nat) + "/"@ + crate::text::decimal(
                f.seconds as nat,
            ) + "s"@,
        ),
{
}

} // verus!
