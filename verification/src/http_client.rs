//! Client side of a `volcano-daemon`: what is asked of it over HTTP, and what its answers mean.
use crate::device::DeviceModel;
use crate::device::DeviceState;
use crate::error::StorzError;
use crate::single::Single;
use crate::text::chars_of;
use crate::text::from_utf8_lossy;
use crate::text::split;
use crate::text::string_between;
use crate::text::strip_prefix;
use crate::text::trim_end_matches;
use vstd::prelude::*;
use vstd::string::*;

verus! {

/// Remote vaporizer behind a `volcano-daemon` HTTP API.
#[derive(Debug)]
pub struct HttpDevice {
    pub base: String,
    pub model: DeviceModel,
}

/// The one member of a JSON body.
#[derive(Debug, Clone, Copy, PartialEq, Eq, Structural)]
pub enum Body {
    /// `celsius`, a number.
    Celsius(Single),
    /// `on`
    On(bool),
    /// `value`
    Value(u16),
    /// `seconds`
    Seconds(u16),
    /// `celsius`, a truth value.
    IsCelsius(bool),
}

/// A request that changes something.
#[derive(Debug)]
pub struct Post {
    pub url: String,
    pub body: Body,
}

/// The base of a daemon's addresses, without the slashes at its end.
pub fn daemon_base(base: &str) -> (r: String)
    ensures
        r@ == crate::text::without_trailing(base@, '/'),
{
    trim_end_matches(base, '/')
}

/// An address at a daemon.
pub fn daemon_url(base: &str, path: &str) -> (r: String)
    ensures
        r@ == base@ + path@,
{
    let mut out = base.to_owned();
    out.append(path);
    out
}

/// A daemon that cannot be reached.
pub fn unreachable_daemon(reason: &str) -> (r: StorzError)
    ensures
        r@ == crate::error::Failure::Other("daemon unreachable: "@ + reason@),
{
    let mut text = "daemon unreachable: ".to_owned();
    text.append(reason);
    StorzError::Other(text)
}

/// An answer that makes no sense.
pub fn bad_response(reason: &str) -> (r: StorzError)
    ensures
        r@ == crate::error::Failure::Other("bad daemon response: "@ + reason@),
{
    let mut text = "bad daemon response: ".to_owned();
    text.append(reason);
    StorzError::Other(text)
}

/// A status that means success.
pub open spec fn is_success(status: u16) -> bool {
    200 <= status < 300
}

/// The error of an answer without success, from the status in words and the text of the
/// answer.
pub open spec fn refusal(status: Seq<char>, text: Seq<char>) -> crate::error::Failure {
    crate::error::Failure::Other("daemon error "@ + status + ": "@ + text)
}

/// Lets an answer with a successful status through; any other is an error that holds the
/// status in words and the text of the answer.
pub fn check_answer(status: u16, status_text: &str, text: &str) -> (r: Result<(), StorzError>)
    ensures
        r is Ok <==> is_success(status),
        r matches Err(e) ==> e@ == refusal(status_text@, text@),
{
    if status >= 200 && status < 300 {
        return Ok(());
    }
    let mut message = "daemon error ".to_owned();
    message.append(status_text);
    message.append(": ");
    message.append(text);
    Err(StorzError::Other(message))
}

/// Lets the start of an event stream through, by its status.
pub fn check_stream(status: u16, status_text: &str) -> (r: Result<(), StorzError>)
    ensures
        r is Ok <==> is_success(status),
        r matches Err(e) ==> e@ == crate::error::Failure::Other("daemon error "@ + status_text@),
{
    if status >= 200 && status < 300 {
        return Ok(());
    }
    let mut message = "daemon error ".to_owned();
    message.append(status_text);
    Err(StorzError::Other(message))
}

/// A temperature that the daemon told; one that it does not know means no connection.
pub fn told_temperature(temperature: Option<Single>) -> (r: Result<Single, StorzError>)
    ensures
        match temperature {
            Some(t) => r matches Ok(got) && got == t,
            None => r matches Err(e) && e@ == crate::error::Failure::NotConnected,
        },
{
    match temperature {
        Some(t) => Ok(t),
        None => Err(StorzError::NotConnected),
    }
}

impl HttpDevice {
    /// A device behind a daemon at `base`.
    pub fn new(base: &str, model: DeviceModel) -> (r: HttpDevice)
        ensures
            r.base@ == crate::text::without_trailing(base@, '/'),
            r.model == model,
    {
        HttpDevice { base: daemon_base(base), model }
    }

    /// The address of the state.
    pub fn state_url(&self) -> (r: String)
        ensures
            r@ == self.base@ + "/state"@,
    {
        daemon_url(self.base.as_str(), "/state")
    }

    /// The address of the settings.
    pub fn settings_url(&self) -> (r: String)
        ensures
            r@ == self.base@ + "/config"@,
    {
        daemon_url(self.base.as_str(), "/config")
    }

    /// The address of the device information.
    pub fn info_url(&self) -> (r: String)
        ensures
            r@ == self.base@ + "/info"@,
    {
        daemon_url(self.base.as_str(), "/info")
    }

    /// The address of the event stream.
    pub fn events_url(&self) -> (r: String)
        ensures
            r@ == self.base@ + "/events"@,
    {
        daemon_url(self.base.as_str(), "/events")
    }

    fn post(&self, path: &str, body: Body) -> (r: Post)
        ensures
            r.url@ == self.base@ + path@,
            r.body == body,
    {
        Post { url: daemon_url(self.base.as_str(), path), body }
    }

    /// Sets the target temperature.
    pub fn set_target_temperature(&self, celsius: Single) -> (r: Post)
        ensures
            r.url@ == self.base@ + "/target-temp"@,
            r.body == Body::Celsius(celsius),
    {
        self.post("/target-temp", Body::Celsius(celsius))
    }

    /// Switches the heater on.
    pub fn heater_on(&self) -> (r: Post)
        ensures
            r.url@ == self.base@ + "/heater"@,
            r.body == Body::On(true),
    {
        self.post("/heater", Body::On(true))
    }

    /// Switches the heater off.
    pub fn heater_off(&self) -> (r: Post)
        ensures
            r.url@ == self.base@ + "/heater"@,
            r.body == Body::On(false),
    {
        self.post("/heater", Body::On(false))
    }

    /// Switches the pump on.
    pub fn pump_on(&self) -> (r: Post)
        ensures
            r.url@ == self.base@ + "/pump"@,
            r.body == Body::On(true),
    {
        self.post("/pump", Body::On(true))
    }

    /// Switches the pump off.
    pub fn pump_off(&self) -> (r: Post)
        ensures
            r.url@ == self.base@ + "/pump"@,
            r.body == Body::On(false),
    {
        self.post("/pump", Body::On(false))
    }

    /// Keeps the display on while the device cools.
    pub fn set_display_on_cooling(&self, on: bool) -> (r: Post)
        ensures
            r.url@ == self.base@ + "/display-on-cooling"@,
            r.body == Body::On(on),
    {
        self.post("/display-on-cooling", Body::On(on))
    }

    /// Sets the brightness.
    pub fn set_brightness(&self, value: u16) -> (r: Post)
        ensures
            r.url@ == self.base@ + "/brightness"@,
            r.body == Body::Value(value),
    {
        self.post("/brightness", Body::Value(value))
    }

    /// Switches vibration.
    pub fn set_vibration(&self, on: bool) -> (r: Post)
        ensures
            r.url@ == self.base@ + "/vibration"@,
            r.body == Body::On(on),
    {
        self.post("/vibration", Body::On(on))
    }

    /// Sets the shutoff time.
    pub fn set_shutoff_time(&self, seconds: u16) -> (r: Post)
        ensures
            r.url@ == self.base@ + "/shutoff-time"@,
            r.body == Body::Seconds(seconds),
    {
        self.post("/shutoff-time", Body::Seconds(seconds))
    }

    /// Shows temperatures in Celsius or in Fahrenheit.
    pub fn set_temperature_unit(&self, celsius: bool) -> (r: Post)
        ensures
            r.url@ == self.base@ + "/unit"@,
            r.body == Body::IsCelsius(celsius),
    {
        self.post("/unit", Body::IsCelsius(celsius))
    }
}

/// What arrived of an event stream and was not read yet.
#[derive(Debug)]
pub struct EventBuffer {
    pub text: String,
}

/// Where the first empty line from `i` on begins, after the end of the line before it.
pub open spec fn break_from(text: Seq<char>, i: int) -> Option<int>
    decreases text.len() - i,
{
    if i < 0 || i + 2 > text.len() {
        None
    } else if text[i] == '\n' && text[i + 1] == '\n' {
        Some(i)
    } else {
        break_from(text, i + 1)
    }
}

/// A line without a carriage return at its end.
pub open spec fn without_return(line: Seq<char>) -> Seq<char> {
    if line.len() > 0 && line.last() == '\r' {
        line.drop_last()
    } else {
        line
    }
}

/// What the data lines among the first `n` lines carry, in their order.
pub open spec fn payloads(lines: Seq<Seq<char>>, n: nat) -> Seq<Seq<char>>
    decreases n,
{
    if n == 0 {
        seq![]
    } else {
        let before = payloads(lines, (n - 1) as nat);
        match crate::text::after_prefix(without_return(lines[n - 1]), "data: "@) {
            Some(data) => before.push(data),
            None => before,
        }
    }
}

/// What the data lines of a frame carry.
pub open spec fn frame_payloads(frame: Seq<char>) -> Seq<Seq<char>> {
    let lines = crate::text::split_on(frame, '\n');
    payloads(lines, lines.len())
}

/// What the complete frames of a text carry, frame by frame.
pub open spec fn frames(text: Seq<char>) -> Seq<Seq<Seq<char>>>
    decreases text.len(),
{
    proof {
        law_nothing_is_lost(text);
    }
    match break_from(text, 0) {
        Some(end) => seq![frame_payloads(text.take(end + 2))] + frames(text.skip(end + 2)),
        None => seq![],
    }
}

/// What follows the complete frames of a text.
pub open spec fn unfinished(text: Seq<char>) -> Seq<char>
    decreases text.len(),
{
    proof {
        law_nothing_is_lost(text);
    }
    match break_from(text, 0) {
        Some(end) => unfinished(text.skip(end + 2)),
        None => text,
    }
}

/// The first of the values that is there.
pub open spec fn first_of<T>(values: Seq<Option<T>>) -> Option<T>
    decreases values.len(),
{
    if values.len() == 0 {
        None
    } else if values[0] is Some {
        values[0]
    } else {
        first_of(values.skip(1))
    }
}

impl EventBuffer {
    /// A stream of which nothing arrived yet.
    pub fn new() -> (r: EventBuffer)
        ensures
            r.text@ == Seq::<char>::empty(),
    {
        EventBuffer { text: String::new() }
    }

    /// Takes in a chunk of the stream.
    pub fn push(&mut self, chunk: &[u8])
        ensures
            final(self).text@ == old(self).text@ + crate::text::lossy_text(chunk@),
            vstd::utf8::valid_utf8(chunk@) ==> final(self).text@ == old(self).text@
                + vstd::utf8::decode_utf8(chunk@),
    {
        let text = from_utf8_lossy(chunk);
        self.push_text(text.as_str());
    }

    /// Takes in a piece of text of the stream.
    pub fn push_text(&mut self, text: &str)
        ensures
            final(self).text@ == old(self).text@ + text@,
    {
        self.text.append(text);
    }

    /// Takes the first frame out of the buffer, once it is complete, and gives what its data
    /// lines carry.
    pub fn next_frame(&mut self) -> (r: Option<Vec<String>>)
        ensures
            match break_from(old(self).text@, 0) {
                Some(end) => {
                    &&& final(self).text@ == old(self).text@.skip(end + 2)
                    &&& r matches Some(data) && crate::text::texts(data@) == frame_payloads(
                        old(self).text@.take(end + 2),
                    )
                },
                None => r is None && final(self).text@ == old(self).text@,
            },
            frames(old(self).text@) == match r {
                Some(data) => seq![crate::text::texts(data@)] + frames(final(self).text@),
                None => seq![],
            },
            unfinished(old(self).text@) == unfinished(final(self).text@),
    {
        let chars = chars_of(self.text.as_str());
        let mut i: usize = 0;
        while i < chars.len() && (i + 1 == chars.len() || chars[i] != '\n' || chars[i + 1] != '\n')
            invariant
                chars@ == self.text@,
                self.text@ == old(self).text@,
                i <= chars@.len(),
                break_from(chars@, 0) == break_from(chars@, i as int),
            decreases chars@.len() - i,
        {
            i = i + 1;
        }
        if i == chars.len() {
            return None;
        }
        let frame = string_between(chars.as_slice(), 0, i + 2);
        assert(frame@ == old(self).text@.take(i + 2));
        self.text = string_between(chars.as_slice(), i + 2, chars.len());
        assert(self.text@ == old(self).text@.skip(i + 2));
        Some(frame_data(frame.as_str()))
    }
}

/// What the data lines of a frame carry.
pub fn frame_data(frame: &str) -> (r: Vec<String>)
    ensures
        crate::text::texts(r@) == frame_payloads(frame@),
{
    let lines = split(frame, '\n');
    let ghost seen = crate::text::split_on(frame@, '\n');
    let mut out: Vec<String> = Vec::new();
    let mut n: usize = 0;
    assert(crate::text::texts(out@) == Seq::<Seq<char>>::empty());
    while n < lines.len()
        invariant
            n <= lines@.len(),
            seen == crate::text::texts(lines@),
            crate::text::texts(out@) == payloads(seen, n as nat),
        decreases lines@.len() - n,
    {
        let line = chomp(lines[n].as_str());
        assert(seen[n as int] == lines@[n as int]@);
        match strip_prefix(line.as_str(), "data: ") {
            Some(data) => {
                let ghost before = out@;
                out.push(data);
                assert(crate::text::texts(out@) == crate::text::texts(before).push(data@));
            },
            None => {},
        }
        n = n + 1;
    }
    out
}

/// The state that a frame tells, given what each of its data lines parses as: the first that
/// is one. A frame without one tells nothing.
pub fn first_state(parsed: &[Option<DeviceState>]) -> (r: Option<DeviceState>)
    ensures
        r == first_of(parsed@),
{
    let mut i: usize = 0;
    assert(parsed@.skip(0) == parsed@);
    while i < parsed.len()
        invariant
            i <= parsed@.len(),
            first_of(parsed@) == first_of(parsed@.skip(i as int)),
        decreases parsed@.len() - i,
    {
        assert(parsed@.skip(i as int).skip(1) == parsed@.skip(i + 1));
        if parsed[i].is_some() {
            return parsed[i];
        }
        i = i + 1;
    }
    None
}

/// Removes a carriage return at the end of a line.
fn chomp(line: &str) -> (r: String)
    ensures
        r@ == without_return(line@),
{
    let chars = chars_of(line);
    let n: usize = chars.len();
    if n > 0 && chars[n - 1] == '\r' {
        assert(line@.subrange(0, n - 1) == line@.drop_last());
        string_between(chars.as_slice(), 0, n - 1)
    } else {
        line.to_owned()
    }
}

/// A frame and what is left of the buffer make up what was there, so that nothing is lost.
pub proof fn law_nothing_is_lost(text: Seq<char>)
    ensures
        break_from(text, 0) matches Some(end) ==> {
            &&& 0 <= end && end + 2 <= text.len()
            &&& text.take(end + 2) + text.skip(end + 2) == text
            &&& text[end] == '\n' && text[end + 1] == '\n'
        },
{
    lemma_break_bounds(text, 0);
    if break_from(text, 0) is Some {
        let end = break_from(text, 0)->0;
        assert(text.take(end + 2) + text.skip(end + 2) == text);
    }
}

proof fn lemma_break_bounds(text: Seq<char>, i: int)
    ensures
        break_from(text, i) matches Some(end) ==> i <= end && end + 2 <= text.len()
            && text[end] == '\n' && text[end + 1] == '\n',
    decreases text.len() - i,
{
    if 0 <= i && i + 2 <= text.len() {
        lemma_break_bounds(text, i + 1);
    }
}

/// A frame that is complete stays the same whatever arrives behind it.
pub proof fn law_complete_frame_is_stable(text: Seq<char>, more: Seq<char>)
    requires
        break_from(text, 0) is Some,
    ensures
        break_from(text + more, 0) == break_from(text, 0),
        (text + more).take(break_from(text, 0)->0 + 2) == text.take(break_from(text, 0)->0 + 2),
{
    lemma_break_stable(text, more, 0);
    lemma_break_bounds(text, 0);
}

proof fn lemma_break_stable(text: Seq<char>, more: Seq<char>, i: int)
    requires
        break_from(text, i) is Some,
    ensures
        break_from(text + more, i) == break_from(text, i),
    decreases text.len() - i,
{
    let all = text + more;
    assert(all[i] == text[i] && all[i + 1] == text[i + 1]);
    if !(text[i] == '\n' && text[i + 1] == '\n') {
        lemma_break_stable(text, more, i + 1);
    }
}

/// The frames of a text in two pieces are those of the first piece, and then those of what was
/// left of it followed by the second.
pub proof fn law_frames_of_two_pieces(a: Seq<char>, b: Seq<char>)
    ensures
        frames(a + b) == frames(a) + frames(unfinished(a) + b),
        unfinished(a + b) == unfinished(unfinished(a) + b),
    decreases a.len(),
{
    if break_from(a, 0) is Some {
        let end = break_from(a, 0)->0;
        let tail = a.skip(end + 2);
        lemma_break_bounds(a, 0);
        law_complete_frame_is_stable(a, b);
        assert((a + b).skip(end + 2) == tail + b);
        law_frames_of_two_pieces(tail, b);
        let first = seq![frame_payloads(a.take(end + 2))];
        assert(first + (frames(tail) + frames(unfinished(tail) + b)) == first + frames(tail)
            + frames(unfinished(tail) + b));
    } else {
        assert(frames(a) + frames(a + b) == frames(a + b));
    }
}

/// What is left of a text once its frames are taken out has no frame.
proof fn lemma_unfinished(text: Seq<char>)
    ensures
        frames(unfinished(text)) == Seq::<Seq<Seq<char>>>::empty(),
        unfinished(unfinished(text)) == unfinished(text),
    decreases text.len(),
{
    lemma_break_bounds(text, 0);
    if break_from(text, 0) is Some {
        lemma_unfinished(text.skip(break_from(text, 0)->0 + 2));
    }
}

/// The frames that come out of a buffer that holds `left` while a stream arrives piece by piece:
/// after each piece the frames that are then complete are taken out.
pub open spec fn received(left: Seq<char>, pieces: Seq<Seq<char>>) -> Seq<Seq<Seq<char>>>
    decreases pieces.len(),
{
    if pieces.len() == 0 {
        seq![]
    } else {
        let text = left + pieces.first();
        frames(text) + received(unfinished(text), pieces.drop_first())
    }
}

/// The frames of a stream are those of its whole text, however it is cut into pieces; what is
/// unfinished at the end gives none.
pub proof fn law_frames_of_stream(left: Seq<char>, pieces: Seq<Seq<char>>)
    requires
        unfinished(left) == left,
    ensures
        received(left, pieces) == frames(left + pieces.flatten()),
    decreases pieces.len(),
{
    if pieces.len() == 0 {
        assert(left + Seq::<char>::empty() == left);
        lemma_unfinished(left);
    } else {
        let text = left + pieces.first();
        let rest = pieces.drop_first();
        lemma_unfinished(text);
        law_frames_of_stream(unfinished(text), rest);
        assert(left + pieces.flatten() == text + rest.flatten());
        law_frames_of_two_pieces(text, rest.flatten());
    }
}

/// The texts of chunks.
pub open spec fn decoded(chunks: Seq<Seq<u8>>) -> Seq<Seq<char>> {
    chunks.map_values(|chunk: Seq<u8>| vstd::utf8::decode_utf8(chunk))
}

proof fn lemma_decode_joins(a: Seq<u8>, b: Seq<u8>)
    requires
        vstd::utf8::valid_utf8(a),
        vstd::utf8::valid_utf8(b),
    ensures
        vstd::utf8::valid_utf8(a + b),
        vstd::utf8::decode_utf8(a + b) == vstd::utf8::decode_utf8(a) + vstd::utf8::decode_utf8(b),
    decreases a.len(),
{
    vstd::utf8::valid_utf8_concat(a, b);
    if a.len() == 0 {
        assert(a + b == b);
        assert(vstd::utf8::decode_utf8(a) + vstd::utf8::decode_utf8(b)
            == vstd::utf8::decode_utf8(b));
    } else {
        let rest = vstd::utf8::pop_first_scalar(a);
        assert(vstd::utf8::pop_first_scalar(a + b) == rest + b);
        lemma_decode_joins(rest, b);
    }
}

proof fn lemma_decoded_whole(chunks: Seq<Seq<u8>>)
    requires
        forall|i: int| 0 <= i < chunks.len() ==> vstd::utf8::valid_utf8(#[trigger] chunks[i]),
    ensures
        vstd::utf8::valid_utf8(chunks.flatten()),
        decoded(chunks).flatten() == vstd::utf8::decode_utf8(chunks.flatten()),
    decreases chunks.len(),
{
    if chunks.len() > 0 {
        let rest = chunks.drop_first();
        lemma_decoded_whole(rest);
        lemma_decode_joins(chunks.first(), rest.flatten());
        assert(decoded(chunks).drop_first() == decoded(rest));
    }
}

/// The frames of a body are the same however it is cut into chunks, as long as no cut goes
/// through a character.
pub proof fn law_frames_of_body(chunks: Seq<Seq<u8>>)
    requires
        forall|i: int| 0 <= i < chunks.len() ==> vstd::utf8::valid_utf8(#[trigger] chunks[i]),
    ensures
        vstd::utf8::valid_utf8(chunks.flatten()),
        received(seq![], decoded(chunks)) == frames(
            vstd::utf8::decode_utf8(chunks.flatten()),
        ),
{
    let whole = decoded(chunks).flatten();
    lemma_decoded_whole(chunks);
    law_frames_of_stream(seq![], decoded(chunks));
    assert(Seq::<char>::empty() + whole == whole);
}

/// Every byte is an ASCII character.
pub open spec fn is_ascii(bytes: Seq<u8>) -> bool {
    forall|i: int| 0 <= i < bytes.len() ==> #[trigger] bytes[i] < 0x80
}

proof fn lemma_ascii_is_utf8(bytes: Seq<u8>)
    requires
        is_ascii(bytes),
    ensures
        vstd::utf8::valid_utf8(bytes),
    decreases bytes.len(),
{
    if bytes.len() > 0 {
        assert(bytes[0] < 0x80);
        lemma_ascii_is_utf8(vstd::utf8::pop_first_scalar(bytes));
    }
}

proof fn lemma_ascii_chunks(chunks: Seq<Seq<u8>>)
    requires
        is_ascii(chunks.flatten()),
    ensures
        forall|i: int| 0 <= i < chunks.len() ==> is_ascii(#[trigger] chunks[i]),
    decreases chunks.len(),
{
    if chunks.len() > 0 {
        let first = chunks.first();
        let rest = chunks.drop_first();
        let whole = chunks.flatten();
        assert(whole == first + rest.flatten());
        assert(is_ascii(first)) by {
            assert forall|i: int| 0 <= i < first.len() implies #[trigger] first[i] < 0x80 by {
                assert(whole[i] == first[i]);
            }
        }
        assert(is_ascii(rest.flatten())) by {
            assert forall|i: int| 0 <= i < rest.flatten().len() implies #[trigger] rest.flatten()[i]
                < 0x80 by {
                assert(whole[first.len() + i] == rest.flatten()[i]);
            }
        }
        lemma_ascii_chunks(rest);
        assert forall|i: int| 0 <= i < chunks.len() implies is_ascii(#[trigger] chunks[i]) by {
            if i > 0 {
                assert(chunks[i] == rest[i - 1]);
            }
        }
    }
}

/// The states that frames tell, in their order: of each frame the first data line that `parse`
/// takes. A frame without one is passed over.
pub open spec fn states<T>(
    frames: Seq<Seq<Seq<char>>>,
    parse: spec_fn(Seq<char>) -> Option<T>,
) -> Seq<T>
    decreases frames.len(),
{
    if frames.len() == 0 {
        seq![]
    } else {
        let rest = states(frames.skip(1), parse);
        match first_of(frames[0].map_values(parse)) {
            Some(state) => seq![state] + rest,
            None => rest,
        }
    }
}

/// What an ASCII body tells depends on the body alone, not on how it is cut into chunks: the
/// frames, and so the states, are those of the whole body. Every chunk is UTF-8 by itself.
pub proof fn law_ascii_body<T>(chunks: Seq<Seq<u8>>, parse: spec_fn(Seq<char>) -> Option<T>)
    requires
        is_ascii(chunks.flatten()),
    ensures
        forall|i: int| 0 <= i < chunks.len() ==> vstd::utf8::valid_utf8(#[trigger] chunks[i]),
        received(seq![], decoded(chunks)) == frames(
            vstd::utf8::decode_utf8(chunks.flatten()),
        ),
        states(received(seq![], decoded(chunks)), parse) == states(
            frames(vstd::utf8::decode_utf8(chunks.flatten())),
            parse,
        ),
{
    lemma_ascii_chunks(chunks);
    assert forall|i: int| 0 <= i < chunks.len() implies vstd::utf8::valid_utf8(
        #[trigger] chunks[i],
    ) by {
        lemma_ascii_is_utf8(chunks[i]);
    }
    law_frames_of_body(chunks);
}

} // verus!
