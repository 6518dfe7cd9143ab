//! Everything that can go wrong, and how it reads.
use crate::single::Single;
use vstd::prelude::*;
use vstd::string::*;

verus! {

/// What a value that cannot be taken is about.
#[derive(Debug)]
pub enum Detail {
    Text(String),
    /// A temperature outside the range that the devices accept. Its words name the temperature.
    OutOfRange { celsius: Single },
}

/// A detail with its text as a character sequence.
pub enum DetailView {
    Text(Seq<char>),
    OutOfRange { celsius: Single },
}

impl View for Detail {
    type V = DetailView;

    open spec fn view(&self) -> DetailView {
        match *self {
            Detail::Text(s) => DetailView::Text(s@),
            Detail::OutOfRange { celsius } => DetailView::OutOfRange { celsius },
        }
    }
}

/// What an operation on a vaporizer can fail with.
#[derive(Debug)]
pub enum StorzError {
    /// The Bluetooth stack failed, with its own words.
    Bluetooth(String),
    DeviceNotFound,
    UnsupportedOperation { device: String, operation: String },
    ParseError(Detail),
    Timeout,
    NotConnected,
    Other(String),
}

/// An error with its texts as character sequences.
pub enum Failure {
    Bluetooth(Seq<char>),
    DeviceNotFound,
    UnsupportedOperation { device: Seq<char>, operation: Seq<char> },
    ParseError(DetailView),
    Timeout,
    NotConnected,
    Other(Seq<char>),
}

impl View for StorzError {
    type V = Failure;

    open spec fn view(&self) -> Failure {
        match *self {
            StorzError::Bluetooth(s) => Failure::Bluetooth(s@),
            StorzError::DeviceNotFound => Failure::DeviceNotFound,
            StorzError::UnsupportedOperation { device, operation } => {
                Failure::UnsupportedOperation { device: device@, operation: operation@ }
            },
            StorzError::ParseError(detail) => Failure::ParseError(detail@),
            StorzError::Timeout => Failure::Timeout,
            StorzError::NotConnected => Failure::NotConnected,
            StorzError::Other(s) => Failure::Other(s@),
        }
    }
}

/// How an error reads, where `number` is the decimal form of the temperature in it.
pub open spec fn wording(failure: Failure, number: Seq<char>) -> Seq<char> {
    match failure {
        Failure::Bluetooth(s) => "Bluetooth error: "@ + s,
        Failure::DeviceNotFound => "Device not found"@,
        Failure::UnsupportedOperation { device, operation } => {
            "Unsupported operation '"@ + operation + "' for device '"@ + device + "'"@
        },
        Failure::ParseError(detail) => "Parse error: "@ + match detail {
            DetailView::Text(s) => s,
            DetailView::OutOfRange { celsius } => {
                "Temperature "@ + number + "°C out of range (40–230°C)"@
            },
        },
        Failure::Timeout => "Operation timed out"@,
        Failure::NotConnected => "Not connected to device"@,
        Failure::Other(s) => s,
    }
}

impl StorzError {
    /// The error in words. `number` is the decimal form of the temperature in it, and is used
    /// by the out-of-range error alone.
    pub fn message(&self, number: &str) -> (r: String)
        ensures
            r@ == wording(self@, number@),
    {
        let mut out = String::new();
        match self {
            StorzError::Bluetooth(s) => {
                out.append("Bluetooth error: ");
                out.append(s.as_str());
            },
            StorzError::DeviceNotFound => out.append("Device not found"),
            StorzError::UnsupportedOperation { device, operation } => {
                out.append("Unsupported operation '");
                out.append(operation.as_str());
                out.append("' for device '");
                out.append(device.as_str());
                out.append("'");
            },
            StorzError::ParseError(detail) => {
                out.append("Parse error: ");
                match detail {
                    Detail::Text(s) => out.append(s.as_str()),
                    Detail::OutOfRange { celsius: _ } => {
                        out.append("Temperature ");
                        out.append(number);
                        out.append("°C out of range (40–230°C)");
                    },
                }
            },
            StorzError::Timeout => out.append("Operation timed out"),
            StorzError::NotConnected => out.append("Not connected to device"),
            StorzError::Other(s) => out.append(s.as_str()),
        }
        out
    }
}

/// The parse error with these words.
pub open spec fn unparsed(words: Seq<char>) -> Failure {
    Failure::ParseError(DetailView::Text(words))
}

/// The parse error of a temperature outside the range.
pub open spec fn out_of_range(celsius: Single) -> Failure {
    Failure::ParseError(DetailView::OutOfRange { celsius })
}

/// The error of an operation that a device does not have.
pub open spec fn unsupported(device: Seq<char>, operation: Seq<char>) -> Failure {
    Failure::UnsupportedOperation { device, operation }
}

} // verus!
