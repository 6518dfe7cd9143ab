//! What the requests on the daemon's socket do to a device.
use crate::cli_laws::Panel;
use crate::json::Scalar;
use crate::requests::Line;
use crate::requests::Pending;
use crate::requests::Request;
use vstd::prelude::*;

verus! {

/// A device that a request was carried out on.
pub open spec fn served(p: Panel, request: Request) -> Panel {
    match request {
        Request::State => p,
        Request::Info => p,
        Request::SetTemperature(target) => Panel { target, ..p },
        Request::Heater(heater) => Panel { heater, ..p },
        Request::Pump(pump) => Panel { pump, ..p },
        Request::Brightness(brightness) => Panel { brightness, ..p },
        Request::Vibration(vibration) => Panel { vibration, ..p },
        Request::Shutoff(shutoff) => Panel { shutoff, ..p },
        Request::Unit { celsius } => Panel { celsius, ..p },
    }
}

/// The request brings `p` to `after`.
pub open spec fn brings(r: Option<Request>, p: Panel, after: Panel) -> bool {
    r matches Some(request) && !(request is State) && !(request is Info) && served(p, request)
        == after
}

/// The outcome is a request that brings `p` to `after`.
pub open spec fn does(r: Result<Request, String>, p: Panel, after: Panel) -> bool {
    r matches Ok(request) && !(request is State) && !(request is Info) && served(p, request)
        == after
}

/// The outcome is a refusal in these words.
pub open spec fn says(r: Result<Request, String>, words: Seq<char>) -> bool {
    r matches Err(e) && e@ == words
}

/// The operations are all different.
proof fn lemma_ops()
    ensures
        "state"@ != "info"@ && "state"@ != "set-temp"@ && "state"@ != "heater"@ && "state"@
            != "pump"@ && "state"@ != "vibration"@ && "state"@ != "brightness"@ && "state"@
            != "shutoff"@ && "state"@ != "unit"@ && "state"@ != "watch"@,
        "info"@ != "set-temp"@ && "info"@ != "heater"@ && "info"@ != "pump"@ && "info"@
            != "vibration"@ && "info"@ != "brightness"@ && "info"@ != "shutoff"@ && "info"@
            != "unit"@ && "info"@ != "watch"@,
        "set-temp"@ != "heater"@ && "set-temp"@ != "pump"@ && "set-temp"@ != "vibration"@
            && "set-temp"@ != "brightness"@ && "set-temp"@ != "shutoff"@ && "set-temp"@ != "unit"@
            && "set-temp"@ != "watch"@,
        "heater"@ != "pump"@ && "heater"@ != "vibration"@ && "heater"@ != "brightness"@
            && "heater"@ != "shutoff"@ && "heater"@ != "unit"@ && "heater"@ != "watch"@,
        "pump"@ != "vibration"@ && "pump"@ != "brightness"@ && "pump"@ != "shutoff"@ && "pump"@
            != "unit"@ && "pump"@ != "watch"@,
        "vibration"@ != "brightness"@ && "vibration"@ != "shutoff"@ && "vibration"@ != "unit"@
            && "vibration"@ != "watch"@,
        "brightness"@ != "shutoff"@ && "brightness"@ != "unit"@ && "brightness"@ != "watch"@,
        "shutoff"@ != "unit"@ && "shutoff"@ != "watch"@,
        "unit"@ != "watch"@,
{
    reveal_strlit("state");
    reveal_strlit("info");
    reveal_strlit("set-temp");
    reveal_strlit("heater");
    reveal_strlit("pump");
    reveal_strlit("vibration");
    reveal_strlit("brightness");
    reveal_strlit("shutoff");
    reveal_strlit("unit");
    reveal_strlit("watch");
    assert("state"@.len() == 5 && "info"@.len() == 4 && "set-temp"@.len() == 8 && "heater"@.len()
        == 6 && "pump"@.len() == 4);
    assert("vibration"@.len() == 9 && "brightness"@.len() == 10 && "shutoff"@.len() == 7
        && "unit"@.len() == 4 && "watch"@.len() == 5);
    assert("state"@[0] == 's' && "watch"@[0] == 'w');
    assert("info"@[0] == 'i' && "pump"@[0] == 'p' && "unit"@[0] == 'u');
}

/// A switch operation with a truth value sets its own switch to that value and nothing else.
pub proof fn law_switch_requests(
    on: bool,
    heater: Option<Request>,
    pump: Option<Request>,
    vibration: Option<Request>,
    unit: Option<Request>,
    p: Panel,
)
    requires
        call_ensures(crate::requests::interpret, ("heater", &Scalar::Bool(on)), heater),
        call_ensures(crate::requests::interpret, ("pump", &Scalar::Bool(on)), pump),
        call_ensures(crate::requests::interpret, ("vibration", &Scalar::Bool(on)), vibration),
        call_ensures(crate::requests::interpret, ("unit", &Scalar::Bool(on)), unit),
    ensures
        brings(heater, p, Panel { heater: on, ..p }),
        brings(pump, p, Panel { pump: on, ..p }),
        brings(vibration, p, Panel { vibration: on, ..p }),
        brings(unit, p, Panel { celsius: on, ..p }),
{
    lemma_ops();
}

/// An operation with a number sets its own value to that number and nothing else; a number that is
/// too large keeps its low two bytes. A temperature is the single nearest to the number.
pub proof fn law_number_requests(
    n: u64,
    double: Option<u64>,
    unsigned: Option<u64>,
    bits: u64,
    brightness: Option<Request>,
    shutoff: Option<Request>,
    target: Option<Request>,
    p: Panel,
)
    requires
        call_ensures(
            crate::requests::interpret,
            ("brightness", &Scalar::Number { unsigned: Some(n), double }),
            brightness,
        ),
        call_ensures(
            crate::requests::interpret,
            ("shutoff", &Scalar::Number { unsigned: Some(n), double }),
            shutoff,
        ),
        call_ensures(
            crate::requests::interpret,
            ("set-temp", &Scalar::Number { unsigned, double: Some(bits) }),
            target,
        ),
    ensures
        brings(brightness, p, Panel { brightness: (n % 65536) as u16, ..p }),
        n <= 65535 ==> brings(brightness, p, Panel { brightness: n as u16, ..p }),
        brings(shutoff, p, Panel { shutoff: (n % 65536) as u16, ..p }),
        n <= 65535 ==> brings(shutoff, p, Panel { shutoff: n as u16, ..p }),
        brings(target, p, Panel { target: crate::single::narrowed(bits), ..p }),
{
    lemma_ops();
}

/// Asking for the state or the information changes nothing, whatever the argument; an argument of
/// the wrong kind makes no request.
pub proof fn law_other_requests(
    argument: Scalar,
    state: Option<Request>,
    info: Option<Request>,
    op: &str,
    r: Option<Request>,
)
    requires
        call_ensures(crate::requests::interpret, ("state", &argument), state),
        call_ensures(crate::requests::interpret, ("info", &argument), info),
        call_ensures(crate::requests::interpret, (op, &argument), r),
    ensures
        state == Some(Request::State),
        info == Some(Request::Info),
        (op@ == "heater"@ || op@ == "pump"@ || op@ == "vibration"@ || op@ == "unit"@) && !(argument
            is Bool) ==> r is None,
        (op@ == "set-temp"@ || op@ == "brightness"@ || op@ == "shutoff"@) && !(argument is Number)
            ==> r is None,
        op@ != "state"@ && op@ != "info"@ && op@ != "set-temp"@ && op@ != "heater"@ && op@
            != "pump"@ && op@ != "vibration"@ && op@ != "brightness"@ && op@ != "shutoff"@ && op@
            != "unit"@ ==> r is None,
{
    lemma_ops();
    assert(argument@ is Bool <==> argument is Bool);
    assert(argument@ is Number <==> argument is Number);
}

/// A line that names a switch and a truth value under `on` is carried out as that switch with that
/// value, and the unit with the one under `celsius`.
pub proof fn law_lines_with_switches(
    pending: Pending,
    r: Result<Request, String>,
    on: bool,
    p: Panel,
)
    requires
        call_ensures(Pending::dispatch, (&pending,), r),
    ensures
        ({
            let all = crate::json::members(pending.value);
            let value = crate::json::ScalarView::Bool(on);
            let given = all.contains_key("on"@) && all["on"@] == value;
            let unit = all.contains_key("celsius"@) && all["celsius"@] == value;
            &&& pending.op@ == "heater"@ && given ==> does(r, p, Panel { heater: on, ..p })
            &&& pending.op@ == "pump"@ && given ==> does(r, p, Panel { pump: on, ..p })
            &&& pending.op@ == "vibration"@ && given ==> does(r, p, Panel { vibration: on, ..p })
            &&& pending.op@ == "unit"@ && unit ==> does(r, p, Panel { celsius: on, ..p })
        }),
{
    lemma_ops();
}

/// A line that names a value is carried out with the number that it holds under the name that goes
/// with the operation.
pub proof fn law_lines_with_numbers(
    pending: Pending,
    r: Result<Request, String>,
    n: u64,
    bits: u64,
    p: Panel,
)
    requires
        call_ensures(Pending::dispatch, (&pending,), r),
    ensures
        ({
            let all = crate::json::members(pending.value);
            &&& pending.op@ == "brightness"@ && all.contains_key("value"@) && all["value"@] is Number
                && all["value"@]->unsigned == Some(n) ==> does(r, p, Panel { brightness: (n % 65536) as u16, ..p })
            &&& pending.op@ == "shutoff"@ && all.contains_key("seconds"@) && all["seconds"@]
                is Number && all["seconds"@]->unsigned == Some(n) ==> does(
                r,
                p,
                Panel { shutoff: (n % 65536) as u16, ..p },
            )
            &&& pending.op@ == "set-temp"@ && all.contains_key("celsius"@) && all["celsius"@]
                is Number && all["celsius"@]->double == Some(bits) ==> does(
                r,
                p,
                Panel { target: crate::single::narrowed(bits), ..p },
            )
            &&& pending.op@ == "state"@ ==> r == Ok::<_, String>(Request::State)
            &&& pending.op@ == "info"@ ==> r == Ok::<_, String>(Request::Info)
        }),
{
    lemma_ops();
}

/// An operation without its argument is refused by the argument's name, and one that there is not
/// by its own.
pub proof fn law_refusals(pending: Pending, r: Result<Request, String>)
    requires
        call_ensures(Pending::dispatch, (&pending,), r),
    ensures
        ({
            let all = crate::json::members(pending.value);
            let op = pending.op@;
            &&& (op == "heater"@ || op == "pump"@ || op == "vibration"@) && !(all.contains_key(
                "on"@,
            ) && all["on"@] is Bool) ==> says(r, "missing "@ + "on"@)
            &&& op == "unit"@ && !(all.contains_key("celsius"@) && all["celsius"@] is Bool)
                ==> says(r, "missing "@ + "celsius"@)
            &&& op == "set-temp"@ && !(all.contains_key("celsius"@) && all["celsius"@] is Number)
                ==> says(r, "missing "@ + "celsius"@)
            &&& op == "brightness"@ && !(all.contains_key("value"@) && all["value"@] is Number)
                ==> says(r, "missing "@ + "value"@)
            &&& op == "shutoff"@ && !(all.contains_key("seconds"@) && all["seconds"@] is Number)
                ==> says(r, "missing "@ + "seconds"@)
            &&& op != "state"@ && op != "info"@ && op != "set-temp"@ && op != "heater"@ && op
                != "pump"@ && op != "vibration"@ && op != "brightness"@ && op != "shutoff"@ && op
                != "unit"@ ==> says(r, "unknown op "@ + crate::text::quoted(op))
        }),
{
    lemma_ops();
}

/// A line that is JSON is asked for what its `op` names, and one with `watch` there turns into a
/// stream; a line that is none is refused.
pub proof fn law_lines(line: &str, r: Line)
    requires
        call_ensures(crate::requests::handle, (line,), r),
    ensures
        match crate::json::json_of(line@) {
            Err(reason) => r matches Line::Refuse { words } && words@ == "bad json: "@ + reason,
            Ok(all) => {
                let op = match all.contains_key("op"@) {
                    true => match all["op"@] {
                        crate::json::ScalarView::Text(s) => s,
                        _ => Seq::<char>::empty(),
                    },
                    false => Seq::<char>::empty(),
                };
                if op == "watch"@ {
                    r is Watch
                } else {
                    r matches Line::Ask(p) && p.op@ == op && crate::json::members(p.value) == all
                }
            },
        },
{
    reveal_strlit("");
    assert(""@ == Seq::<char>::empty());
}

} // verus!
