//! What the client of a daemon asks for, as the daemon takes it.
use crate::cli_laws::Panel;
use crate::device::DeviceModel;
use crate::device::DeviceState;
use crate::error::StorzError;
use crate::http_client::Body;
use crate::http_client::HttpDevice;
use crate::http_client::Post;
use crate::single::Single;
use vstd::prelude::*;

verus! {

/// A device that a daemon carried a request out on: the path of the request says what is set, and
/// its body to what.
pub open spec fn posted(p: Panel, path: Seq<char>, body: Body) -> Panel {
    match body {
        Body::Celsius(t) if path == "/target-temp"@ => Panel { target: t, ..p },
        Body::On(on) if path == "/heater"@ => Panel { heater: on, ..p },
        Body::On(on) if path == "/pump"@ => Panel { pump: on, ..p },
        Body::On(on) if path == "/vibration"@ => Panel { vibration: on, ..p },
        Body::On(on) if path == "/display-on-cooling"@ => Panel { display_on_cooling: on, ..p },
        Body::Value(n) if path == "/brightness"@ => Panel { brightness: n, ..p },
        Body::Seconds(n) if path == "/shutoff-time"@ => Panel { shutoff: n, ..p },
        Body::IsCelsius(celsius) if path == "/unit"@ => Panel { celsius, ..p },
        _ => p,
    }
}

/// A request to the daemon at `base` brings `p` to `after`.
pub open spec fn brings(base: Seq<char>, r: Post, p: Panel, after: Panel) -> bool {
    &&& r.url@.len() > base.len() && r.url@.take(base.len() as int) == base
    &&& posted(p, r.url@.skip(base.len() as int), r.body) == after
}

/// The paths for switches are all different.
proof fn lemma_paths()
    ensures
        "/heater"@ != "/pump"@ && "/heater"@ != "/vibration"@ && "/heater"@
            != "/display-on-cooling"@,
        "/pump"@ != "/vibration"@ && "/pump"@ != "/display-on-cooling"@,
        "/vibration"@ != "/display-on-cooling"@,
        "/heater"@.len() > 0 && "/pump"@.len() > 0 && "/vibration"@.len() > 0
            && "/display-on-cooling"@.len() > 0,
        "/target-temp"@.len() > 0 && "/brightness"@.len() > 0 && "/shutoff-time"@.len() > 0
            && "/unit"@.len() > 0,
{
    reveal_strlit("/heater");
    reveal_strlit("/pump");
    reveal_strlit("/vibration");
    reveal_strlit("/display-on-cooling");
    reveal_strlit("/target-temp");
    reveal_strlit("/brightness");
    reveal_strlit("/shutoff-time");
    reveal_strlit("/unit");
    assert("/heater"@.len() == 7 && "/pump"@.len() == 5 && "/vibration"@.len() == 10
        && "/display-on-cooling"@.len() == 19);
}

/// A path behind a base.
proof fn lemma_path(base: Seq<char>, path: Seq<char>)
    ensures
        (base + path).take(base.len() as int) == base,
        (base + path).skip(base.len() as int) == path,
{
    assert((base + path).take(base.len() as int) == base);
    assert((base + path).skip(base.len() as int) == path);
}

/// Switching the heater or the pump does exactly that.
pub proof fn law_heater_and_pump(
    d: HttpDevice,
    heater_on: Post,
    heater_off: Post,
    pump_on: Post,
    pump_off: Post,
    p: Panel,
)
    requires
        call_ensures(HttpDevice::heater_on, (&d,), heater_on),
        call_ensures(HttpDevice::heater_off, (&d,), heater_off),
        call_ensures(HttpDevice::pump_on, (&d,), pump_on),
        call_ensures(HttpDevice::pump_off, (&d,), pump_off),
    ensures
        brings(d.base@, heater_on, p, Panel { heater: true, ..p }),
        brings(d.base@, heater_off, p, Panel { heater: false, ..p }),
        brings(d.base@, pump_on, p, Panel { pump: true, ..p }),
        brings(d.base@, pump_off, p, Panel { pump: false, ..p }),
{
    lemma_paths();
    lemma_path(d.base@, "/heater"@);
    lemma_path(d.base@, "/pump"@);
}

/// Every other setting is set alone, to the very value that was asked for.
pub proof fn law_values(
    d: HttpDevice,
    t: Single,
    n: u16,
    target: Post,
    brightness: Post,
    shutoff: Post,
    p: Panel,
)
    requires
        call_ensures(HttpDevice::set_target_temperature, (&d, t), target),
        call_ensures(HttpDevice::set_brightness, (&d, n), brightness),
        call_ensures(HttpDevice::set_shutoff_time, (&d, n), shutoff),
    ensures
        brings(d.base@, target, p, Panel { target: t, ..p }),
        brings(d.base@, brightness, p, Panel { brightness: n, ..p }),
        brings(d.base@, shutoff, p, Panel { shutoff: n, ..p }),
{
    lemma_paths();
    lemma_path(d.base@, "/target-temp"@);
    lemma_path(d.base@, "/brightness"@);
    lemma_path(d.base@, "/shutoff-time"@);
}

/// Every other switch is set alone, to the value that was asked for.
pub proof fn law_switches(
    d: HttpDevice,
    on: bool,
    vibration: Post,
    cooling: Post,
    unit: Post,
    p: Panel,
)
    requires
        call_ensures(HttpDevice::set_vibration, (&d, on), vibration),
        call_ensures(HttpDevice::set_display_on_cooling, (&d, on), cooling),
        call_ensures(HttpDevice::set_temperature_unit, (&d, on), unit),
    ensures
        brings(d.base@, vibration, p, Panel { vibration: on, ..p }),
        brings(d.base@, cooling, p, Panel { display_on_cooling: on, ..p }),
        brings(d.base@, unit, p, Panel { celsius: on, ..p }),
{
    lemma_paths();
    lemma_path(d.base@, "/vibration"@);
    lemma_path(d.base@, "/display-on-cooling"@);
    lemma_path(d.base@, "/unit"@);
}

/// What is read is read at the daemon's own address: state, settings, information and events.
pub proof fn law_addresses(
    base: &str,
    model: DeviceModel,
    d: HttpDevice,
    state: String,
    settings: String,
    info: String,
    events: String,
)
    requires
        call_ensures(HttpDevice::new, (base, model), d),
        call_ensures(HttpDevice::state_url, (&d,), state),
        call_ensures(HttpDevice::settings_url, (&d,), settings),
        call_ensures(HttpDevice::info_url, (&d,), info),
        call_ensures(HttpDevice::events_url, (&d,), events),
    ensures
        d.model == model,
        state@ == d.base@ + "/state"@,
        settings@ == d.base@ + "/config"@,
        info@ == d.base@ + "/info"@,
        events@ == d.base@ + "/events"@,
        d.base@.len() <= base@.len() && d.base@ == base@.take(d.base@.len() as int),
        d.base@.len() > 0 ==> d.base@.last() != '/',
        forall|i: int| d.base@.len() <= i < base@.len() ==> base@[i] == '/',
{
    lemma_without_trailing(base@, '/');
}

/// Without a character at its end a text is what is in front of the last run of it.
proof fn lemma_without_trailing(s: Seq<char>, c: char)
    ensures
        ({
            let t = crate::text::without_trailing(s, c);
            &&& t.len() <= s.len() && t == s.take(t.len() as int)
            &&& t.len() > 0 ==> t.last() != c
            &&& forall|i: int| t.len() <= i < s.len() ==> s[i] == c
        }),
    decreases s.len(),
{
    let t = crate::text::without_trailing(s, c);
    if s.len() > 0 && s.last() == c {
        let head = s.drop_last();
        lemma_without_trailing(head, c);
        assert(head.take(t.len() as int) == s.take(t.len() as int));
        assert forall|i: int| t.len() <= i < s.len() implies s[i] == c by {
            if i < head.len() {
                assert(head[i] == s[i]);
            }
        }
    } else {
        assert(s.take(s.len() as int) == s);
    }
}

/// An answer counts where its status lies from 200 to 299, and only there; any other is an error
/// that says the status and what the daemon said. The start of a stream goes by the same status.
pub proof fn law_answers(
    status: u16,
    words: &str,
    text: &str,
    answer: Result<(), StorzError>,
    stream: Result<(), StorzError>,
)
    requires
        call_ensures(crate::http_client::check_answer, (status, words, text), answer),
        call_ensures(crate::http_client::check_stream, (status, words), stream),
    ensures
        answer is Ok <==> status / 100 == 2,
        stream is Ok <==> status / 100 == 2,
        answer matches Err(e) ==> e@ == crate::error::Failure::Other(
            "daemon error "@ + words@ + ": "@ + text@,
        ),
        stream matches Err(e) ==> e@ == crate::error::Failure::Other("daemon error "@ + words@),
{
}

/// A temperature that the daemon knows is told as it is, and one that it does not know means that
/// there is no connection. What failed is said with its reason.
pub proof fn law_told(
    t: Option<Single>,
    told: Result<Single, StorzError>,
    reason: &str,
    away: StorzError,
    bad: StorzError,
)
    requires
        call_ensures(crate::http_client::told_temperature, (t,), told),
        call_ensures(crate::http_client::unreachable_daemon, (reason,), away),
        call_ensures(crate::http_client::bad_response, (reason,), bad),
    ensures
        t matches Some(v) ==> told == Ok::<_, StorzError>(v),
        t is None ==> (told matches Err(e) && e@ is NotConnected),
        away@ == crate::error::Failure::Other("daemon unreachable: "@ + reason@),
        bad@ == crate::error::Failure::Other("bad daemon response: "@ + reason@),
{
}

/// A frame carries what stands behind `data: ` in its lines, line by line, without a carriage return
/// at the end; any other line carries nothing.
pub proof fn law_frame_lines(lines: Seq<Seq<char>>, n: nat)
    requires
        n < lines.len(),
    ensures
        ({
            let line = lines[n as int];
            let before = crate::http_client::payloads(lines, n);
            let after = crate::http_client::payloads(lines, n + 1);
            let bare = if line.len() > 0 && line[line.len() - 1] == '\r' {
                line.take(line.len() - 1)
            } else {
                line
            };
            let head = seq!['d', 'a', 't', 'a', ':', ' '];
            if bare.len() >= 6 && bare.take(6) == head {
                after == before.push(bare.skip(6))
            } else {
                after == before
            }
        }),
{
    reveal_strlit("data: ");
    let line = lines[n as int];
    assert("data: "@ == seq!['d', 'a', 't', 'a', ':', ' ']);
    if line.len() > 0 {
        assert(line.drop_last() == line.take(line.len() - 1));
    }
}

/// A frame ends at the first empty line: two line ends in a row, and none before.
pub proof fn law_frame_end(text: Seq<char>)
    ensures
        match crate::http_client::break_from(text, 0) {
            Some(end) => {
                &&& 0 <= end && end + 2 <= text.len()
                &&& text[end] == '\n' && text[end + 1] == '\n'
                &&& forall|i: int| 0 <= i < end ==> !(#[trigger] text[i] == '\n' && text[i + 1] == '\n')
            },
            None => forall|i: int|
                0 <= i < text.len() - 1 ==> !(#[trigger] text[i] == '\n' && text[i + 1] == '\n'),
        },
{
    lemma_frame_end(text, 0);
}

proof fn lemma_frame_end(text: Seq<char>, from: int)
    requires
        0 <= from,
    ensures
        match crate::http_client::break_from(text, from) {
            Some(end) => {
                &&& from <= end && end + 2 <= text.len()
                &&& text[end] == '\n' && text[end + 1] == '\n'
                &&& forall|i: int| from <= i < end ==> !(#[trigger] text[i] == '\n' && text[i + 1] == '\n')
            },
            None => forall|i: int|
                from <= i < text.len() - 1 ==> !(#[trigger] text[i] == '\n' && text[i + 1] == '\n'),
        },
    decreases text.len() - from,
{
    if from + 2 <= text.len() {
        lemma_frame_end(text, from + 1);
    }
}

/// The state of a frame is the first that its data lines tell.
pub proof fn law_first_state(
    parsed: &[Option<DeviceState>],
    r: Option<DeviceState>,
    i: int,
)
    requires
        call_ensures(crate::http_client::first_state, (parsed,), r),
    ensures
        (forall|k: int| 0 <= k < parsed@.len() ==> (#[trigger] parsed@[k]) is None) ==> r is None,
        0 <= i < parsed@.len() && parsed@[i] is Some && (forall|k: int|
            0 <= k < i ==> (#[trigger] parsed@[k]) is None) ==> r == parsed@[i],
{
    lemma_first(parsed@, i);
}

proof fn lemma_first(parsed: Seq<Option<DeviceState>>, i: int)
    ensures
        (forall|k: int| 0 <= k < parsed.len() ==> (#[trigger] parsed[k]) is None)
            ==> crate::http_client::first_of(parsed) is None,
        0 <= i < parsed.len() && parsed[i] is Some && (forall|k: int|
            0 <= k < i ==> (#[trigger] parsed[k]) is None) ==> crate::http_client::first_of(parsed)
            == parsed[i],
    decreases parsed.len(),
{
    if parsed.len() > 0 && parsed[0] is None {
        let rest = parsed.skip(1);
        lemma_first(rest, i - 1);
        assert forall|k: int| 0 <= k < rest.len() implies #[trigger] rest[k] == parsed[k + 1] by {}
    }
}

} // verus!
