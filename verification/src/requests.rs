//! Requests on the daemon's socket: one JSON object a line.
use crate::json::Scalar;
use crate::single::Single;
use crate::text::quoted_text;
use crate::text::same_text;
use vstd::prelude::*;
use vstd::string::*;

verus! {

/// What a line on the socket asks for.
#[derive(Debug, Clone, Copy, PartialEq, Eq, Structural)]
pub enum Request {
    State,
    Info,
    SetTemperature(Single),
    Heater(bool),
    Pump(bool),
    Brightness(u16),
    Vibration(bool),
    Shutoff(u16),
    Unit { celsius: bool },
}

/// A request on its way: its operation, and the JSON value that it came in.
#[derive(Debug)]
pub struct Pending {
    pub op: String,
    pub value: serde_json::Value,
}

impl Pending {
    /// The members of the request.
    pub open spec fn members(&self) -> Map<Seq<char>, crate::json::ScalarView> {
        crate::json::members(self.value)
    }
}

/// The text in a scalar, or nothing.
pub open spec fn text_in(scalar: crate::json::ScalarView) -> Seq<char> {
    match scalar {
        crate::json::ScalarView::Text(s) => s,
        _ => ""@,
    }
}

/// The operation that the members name, or nothing.
pub open spec fn op_of(all: Map<Seq<char>, crate::json::ScalarView>) -> Seq<char> {
    text_in(crate::json::member_of(all, "op"@))
}

/// The operation that turns the connection into a stream of states.
pub open spec fn is_watch(op: Seq<char>) -> bool {
    op == "watch"@
}

/// Operations that switch something.
pub open spec fn is_switch(op: Seq<char>) -> bool {
    op == "heater"@ || op == "pump"@ || op == "vibration"@
}

/// The member that an operation reads.
pub open spec fn argument_name(op: Seq<char>) -> Seq<char> {
    if op == "set-temp"@ || op == "unit"@ {
        "celsius"@
    } else if is_switch(op) {
        "on"@
    } else if op == "brightness"@ {
        "value"@
    } else if op == "shutoff"@ {
        "seconds"@
    } else {
        ""@
    }
}

/// The operations that a request can name, the watching aside.
pub open spec fn is_known(op: Seq<char>) -> bool {
    ||| op == "state"@
    ||| op == "info"@
    ||| op == "set-temp"@
    ||| is_switch(op)
    ||| op == "brightness"@
    ||| op == "shutoff"@
    ||| op == "unit"@
}

/// The request that an operation and its argument make; nothing where the argument is of the
/// wrong kind. A number that does not fit in two bytes loses what is above them.
pub open spec fn request_of(op: Seq<char>, argument: crate::json::ScalarView) -> Option<Request> {
    if op == "state"@ {
        Some(Request::State)
    } else if op == "info"@ {
        Some(Request::Info)
    } else if op == "set-temp"@ {
        match argument {
            crate::json::ScalarView::Number { double: Some(bits), .. } => Some(
                Request::SetTemperature(crate::single::narrowed(bits)),
            ),
            _ => None,
        }
    } else if is_switch(op) {
        match argument {
            crate::json::ScalarView::Bool(on) => Some(
                if op == "heater"@ {
                    Request::Heater(on)
                } else if op == "pump"@ {
                    Request::Pump(on)
                } else {
                    Request::Vibration(on)
                },
            ),
            _ => None,
        }
    } else if op == "brightness"@ {
        match argument {
            crate::json::ScalarView::Number { unsigned: Some(n), .. } => Some(
                Request::Brightness((n % 0x1_0000) as u16),
            ),
            _ => None,
        }
    } else if op == "shutoff"@ {
        match argument {
            crate::json::ScalarView::Number { unsigned: Some(n), .. } => Some(
                Request::Shutoff((n % 0x1_0000) as u16),
            ),
            _ => None,
        }
    } else if op == "unit"@ {
        match argument {
            crate::json::ScalarView::Bool(celsius) => Some(Request::Unit { celsius }),
            _ => None,
        }
    } else {
        None
    }
}

/// The words for an operation that cannot be done, where `quoted` is its name in quotes.
pub open spec fn complaint(op: Seq<char>, quoted: Seq<char>) -> Seq<char> {
    if is_known(op) {
        "missing "@ + argument_name(op)
    } else {
        "unknown op "@ + quoted
    }
}

/// Reads a line. A text that is no JSON is refused, with the reason.
pub fn read_line(line: &str) -> (r: Result<Pending, String>)
    ensures
        match crate::json::json_of(line@) {
            Ok(all) => r matches Ok(p) && p.op@ == op_of(all) && p.members() == all,
            Err(reason) => r matches Err(text) && text@ == "bad json: "@ + reason,
        },
{
    match crate::json::parse(line) {
        Ok(value) => {
            let op = text_or_empty(crate::json::member(&value, "op"));
            Ok(Pending { op, value })
        },
        Err(reason) => {
            let mut text = "bad json: ".to_owned();
            text.append(reason.as_str());
            Err(text)
        },
    }
}

/// What is to be done with a line on the socket.
#[derive(Debug)]
pub enum Line {
    /// The line is refused with these words, and the next one is read.
    Refuse { words: String },
    /// States are sent until they end, then the connection is over.
    Watch,
    /// The request is answered, and the next line is read.
    Ask(Pending),
}

/// What a line on the socket comes to.
pub fn handle(line: &str) -> (r: Line)
    ensures
        match crate::json::json_of(line@) {
            Err(reason) => r matches Line::Refuse { words } && words@ == "bad json: "@ + reason,
            Ok(all) => if is_watch(op_of(all)) {
                r == Line::Watch
            } else {
                r matches Line::Ask(p) && p.op@ == op_of(all) && p.members() == all
            },
        },
{
    match read_line(line) {
        Ok(pending) => if pending.watches() {
            Line::Watch
        } else {
            Line::Ask(pending)
        },
        Err(words) => Line::Refuse { words },
    }
}

/// The text in a scalar, or nothing.
pub fn text_or_empty(scalar: Scalar) -> (r: String)
    ensures
        r@ == text_in(scalar@),
{
    match scalar {
        Scalar::Text(s) => s,
        _ => "".to_owned(),
    }
}

/// The member that an operation reads.
pub fn argument_of(op: &str) -> (r: &'static str)
    ensures
        r@ == argument_name(op@),
{
    if same_text(op, "set-temp") || same_text(op, "unit") {
        "celsius"
    } else if same_text(op, "heater") || same_text(op, "pump") || same_text(op, "vibration") {
        "on"
    } else if same_text(op, "brightness") {
        "value"
    } else if same_text(op, "shutoff") {
        "seconds"
    } else {
        ""
    }
}

/// The request that an operation and its argument make.
pub fn interpret(op: &str, argument: &Scalar) -> (r: Option<Request>)
    ensures
        r == request_of(op@, argument@),
{
    if same_text(op, "state") {
        Some(Request::State)
    } else if same_text(op, "info") {
        Some(Request::Info)
    } else if same_text(op, "set-temp") {
        match argument {
            Scalar::Number { unsigned: _, double: Some(bits) } => Some(
                Request::SetTemperature(Single::from_double(*bits)),
            ),
            _ => None,
        }
    } else if same_text(op, "heater") || same_text(op, "pump") || same_text(op, "vibration") {
        match argument {
            Scalar::Bool(on) => Some(
                if same_text(op, "heater") {
                    Request::Heater(*on)
                } else if same_text(op, "pump") {
                    Request::Pump(*on)
                } else {
                    Request::Vibration(*on)
                },
            ),
            _ => None,
        }
    } else if same_text(op, "brightness") {
        match argument {
            Scalar::Number { unsigned: Some(n), double: _ } => Some(
                Request::Brightness((*n % 0x1_0000) as u16),
            ),
            _ => None,
        }
    } else if same_text(op, "shutoff") {
        match argument {
            Scalar::Number { unsigned: Some(n), double: _ } => Some(
                Request::Shutoff((*n % 0x1_0000) as u16),
            ),
            _ => None,
        }
    } else if same_text(op, "unit") {
        match argument {
            Scalar::Bool(celsius) => Some(Request::Unit { celsius: *celsius }),
            _ => None,
        }
    } else {
        None
    }
}

fn known(op: &str) -> (r: bool)
    ensures
        r == is_known(op@),
{
    same_text(op, "state") || same_text(op, "info") || same_text(op, "set-temp") || same_text(
        op,
        "heater",
    ) || same_text(op, "pump") || same_text(op, "vibration") || same_text(op, "brightness")
        || same_text(op, "shutoff") || same_text(op, "unit")
}

/// The words for an operation that cannot be done, given its name in quotes.
pub fn complain(op: &str, quoted: &str) -> (r: String)
    ensures
        r@ == complaint(op@, quoted@),
{
    if known(op) {
        let mut text = "missing ".to_owned();
        text.append(argument_of(op));
        text
    } else {
        let mut text = "unknown op ".to_owned();
        text.append(quoted);
        text
    }
}

impl Pending {
    /// Whether the connection is to become a stream of states.
    pub fn watches(&self) -> (r: bool)
        ensures
            r == is_watch(self.op@),
    {
        same_text(self.op.as_str(), "watch")
    }

    /// What is asked for, or what is wrong with it.
    pub fn dispatch(&self) -> (r: Result<Request, String>)
        ensures
            match request_of(
                self.op@,
                crate::json::member_of(self.members(), argument_name(self.op@)),
            ) {
                Some(request) => r matches Ok(got) && got == request,
                None => r matches Err(text) && text@ == complaint(
                    self.op@,
                    crate::text::quoted(self.op@),
                ),
            },
    {
        let op = self.op.as_str();
        let argument = crate::json::member(&self.value, argument_of(op));
        match interpret(op, &argument) {
            Some(request) => Ok(request),
            None => {
                let quoted = quoted_text(op);
                Err(complain(op, quoted.as_str()))
            },
        }
    }
}

/// Only known operations are carried out, and one that is known is refused only for want of
/// its argument.
pub proof fn law_unknown_operations_are_refused(
    op: Seq<char>,
    argument: crate::json::ScalarView,
    quoted: Seq<char>,
)
    ensures
        !is_known(op) ==> request_of(op, argument) is None && complaint(op, quoted)
            == "unknown op "@ + quoted,
        is_known(op) && request_of(op, argument) is None ==> complaint(op, quoted) == "missing "@
            + argument_name(op),
        op == "state"@ || op == "info"@ ==> request_of(op, argument) is Some,
{
}

} // verus!
