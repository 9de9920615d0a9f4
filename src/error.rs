//! Errors of the protocol engine.
use vstd::prelude::*;

verus! {

/// A failure of the byte transport, as the caller that performs the I/O reports it.
#[derive(Debug, PartialEq, Eq)]
pub enum TransportError {
    /// The transport's read timeout elapsed before the bytes arrived.
    TimedOut,
    /// Any other I/O failure, with its description.
    Failed(String),
}

/// Error that occurred while reading data back from the device.
#[derive(Debug)]
pub enum ReadError {
    /// I/O error when communicating with the device.
    PipeError(TransportError),
    /// Malformed or unexpected content in a response.
    ParseError(String),
    /// The checksum computed over the frame differs from the one it carries.
    ChecksumMismatch { expected: u16, actual: u16 },
    /// The declared frame length differs from the length its content accounts for.
    SizeMismatch { expected: u16, actual: u16 },
}

/// Error that occurred while writing data to the device.
#[derive(Debug)]
pub enum WriteError {
    /// I/O error when writing to the device.
    PipeError(TransportError),
}

/// Error of a request/response exchange.
#[derive(Debug)]
pub enum RWError {
    /// Error occurred when reading or parsing the response.
    ReadError(ReadError),
    /// Error occurred when writing the request.
    WriteError(WriteError),
    /// The device answered with an error status.
    DeviceError(String),
}


/// Why a response's content was rejected.
#[derive(Debug, Clone, Copy, PartialEq, Eq)]
pub enum ParseReason {
    /// A boolean byte other than 0 or 1.
    InvalidBool,
    /// A mounting reference outside 1..=16.
    InvalidMountingRef,
    /// A baud rate descriptor outside 4..=14.
    InvalidBaud,
    /// A channel id that names no measurement channel.
    UnknownDataId(u8),
    /// A response command other than the one the request calls for.
    UnexpectedResponse { expected: u8, got: u8 },
    /// Text bytes that are not UTF-8.
    InvalidUtf8,
}

/// What a decoder reports, as a value of the model.
pub enum Failure {
    Parse(ParseReason),
    Checksum { expected: u16, actual: u16 },
    Size { expected: u16, actual: u16 },
}

/// The text of channel id 79, which the device sends when no channel list was configured.
pub open spec fn unconfigured_channels_text() -> Seq<char> {
    "Unknown DataID from device: 79. This ID is usually detected when set_data_components is not called before calling get_data. You must specify what data you want from the device before parsing data back from the device."@
}

pub open spec fn digit_char(d: int) -> char {
    if d == 0 {
        '0'
    } else if d == 1 {
        '1'
    } else if d == 2 {
        '2'
    } else if d == 3 {
        '3'
    } else if d == 4 {
        '4'
    } else if d == 5 {
        '5'
    } else if d == 6 {
        '6'
    } else if d == 7 {
        '7'
    } else if d == 8 {
        '8'
    } else {
        '9'
    }
}

/// The decimal digits of `n`.
pub open spec fn decimal(n: nat) -> Seq<char>
    decreases n,
{
    if n < 10 {
        seq![digit_char(n as int)]
    } else {
        decimal(n / 10) + seq![digit_char((n % 10) as int)]
    }
}

/// The message that a parse error carries.
pub open spec fn reason_text(r: ParseReason) -> Seq<char> {
    match r {
        ParseReason::InvalidBool => "Boolean must be 0 for false, 1 for true and nothing else"@,
        ParseReason::InvalidMountingRef => "MountingRef must be within [1, 16]"@,
        ParseReason::InvalidBaud => "Baud descriptor from device must be one of [4,14], the only supported bauds"@,
        ParseReason::UnknownDataId(id) => if id == 79 {
            unconfigured_channels_text()
        } else {
            "Unknown DataID from device: "@ + decimal(id as nat)
        },
        ParseReason::UnexpectedResponse { expected, got } => "Unexpected response type: expected "@
            + decimal(expected as nat) + ", got "@ + decimal(got as nat),
        ParseReason::InvalidUtf8 => "UTF8 String couldn't be parsed"@,
    }
}

/// `e` is the error that the model's failure `f` stands for.
pub open spec fn reports(e: ReadError, f: Failure) -> bool {
    match f {
        Failure::Parse(r) => e matches ReadError::ParseError(s) && s@ == reason_text(r),
        Failure::Checksum { expected, actual } => e == ReadError::ChecksumMismatch {
            expected,
            actual,
        },
        Failure::Size { expected, actual } => e == ReadError::SizeMismatch { expected, actual },
    }
}

/// `r` is the error that stands for `f`.
pub open spec fn fails_with<T>(r: Result<T, ReadError>, f: Failure) -> bool {
    r matches Err(e) && reports(e, f)
}

/// The text of the device error that a failed save reports.
pub open spec fn save_failed_text() -> Seq<char> {
    "Received error code from device, settings not saved successfully"@
}

/// `r` is the outcome `m` of the model: the same value, or the error that stands for the
/// same failure.
pub open spec fn outcome<T>(r: Result<T, RWError>, m: Result<T, Failure>) -> bool {
    match m {
        Ok(v) => r == Ok::<T, RWError>(v),
        Err(f) => r matches Err(RWError::ReadError(e)) && reports(e, f),
    }
}

/// `r` is the outcome `m` of the model, for a decoder that reports a `ReadError`.
pub open spec fn read_outcome<T>(r: Result<T, ReadError>, m: Result<T, Failure>) -> bool {
    match m {
        Ok(v) => r == Ok::<T, ReadError>(v),
        Err(f) => r matches Err(e) && reports(e, f),
    }
}

fn digit_str(d: u8) -> (r: &'static str)
    requires
        d < 10,
    ensures
        r@ == seq![digit_char(d as int)],
{
    proof {
        reveal_strlit("0");
        reveal_strlit("1");
        reveal_strlit("2");
        reveal_strlit("3");
        reveal_strlit("4");
        reveal_strlit("5");
        reveal_strlit("6");
        reveal_strlit("7");
        reveal_strlit("8");
        reveal_strlit("9");
    }
    match d {
        0 => "0",
        1 => "1",
        2 => "2",
        3 => "3",
        4 => "4",
        5 => "5",
        6 => "6",
        7 => "7",
        8 => "8",
        _ => "9",
    }
}

/// Writes the decimal digits of `n` onto the end of `s`.
fn push_decimal(s: &mut String, n: u8)
    ensures
        final(s)@ == old(s)@ + decimal(n as nat),
{
    reveal_with_fuel(decimal, 3);
    if n >= 100 {
        s.append(digit_str(n / 100));
        s.append(digit_str(n / 10 % 10));
    } else if n >= 10 {
        s.append(digit_str(n / 10));
    }
    s.append(digit_str(n % 10));
    proof {
        let m = n as int;
        if n >= 100 {
            assert(decimal(n as nat) =~= seq![
                digit_char(m / 100),
                digit_char(m / 10 % 10),
                digit_char(m % 10),
            ]);
        } else if n >= 10 {
            assert(decimal(n as nat) =~= seq![digit_char(m / 10), digit_char(m % 10)]);
        }
    }
}

/// The parse error for `reason`, with its message.
pub fn parse_error(reason: ParseReason) -> (e: ReadError)
    ensures
        reports(e, Failure::Parse(reason)),
{
    let text = match reason {
        ParseReason::InvalidBool => String::from_str(
            "Boolean must be 0 for false, 1 for true and nothing else",
        ),
        ParseReason::InvalidMountingRef => String::from_str("MountingRef must be within [1, 16]"),
        ParseReason::InvalidBaud => String::from_str(
            "Baud descriptor from device must be one of [4,14], the only supported bauds",
        ),
        ParseReason::UnknownDataId(id) => {
            if id == 79 {
                String::from_str(
                    "Unknown DataID from device: 79. This ID is usually detected when set_data_components is not called before calling get_data. You must specify what data you want from the device before parsing data back from the device.",
                )
            } else {
                let mut s = String::from_str("Unknown DataID from device: ");
                push_decimal(&mut s, id);
                s
            }
        },
        ParseReason::UnexpectedResponse { expected, got } => {
            let mut s = String::from_str("Unexpected response type: expected ");
            push_decimal(&mut s, expected);
            s.append(", got ");
            push_decimal(&mut s, got);
            s
        },
        ParseReason::InvalidUtf8 => String::from_str("UTF8 String couldn't be parsed"),
    };
    ReadError::ParseError(text)
}

/// The error that `f` stands for.
pub fn failure_error(f: Failure) -> (e: ReadError)
    ensures
        reports(e, f),
{
    match f {
        Failure::Parse(r) => parse_error(r),
        Failure::Checksum { expected, actual } => ReadError::ChecksumMismatch { expected, actual },
        Failure::Size { expected, actual } => ReadError::SizeMismatch { expected, actual },
    }
}

impl ReadError {
    /// A readable description of the error.
    pub fn message(&self) -> (r: String)
        ensures
            self matches ReadError::ParseError(s) ==> r@ == s@,
    {
        match self {
            ReadError::PipeError(TransportError::TimedOut) => String::from_str(
                "I/O error: timed out",
            ),
            ReadError::PipeError(TransportError::Failed(s)) => {
                let mut m = String::from_str("I/O error: ");
                m.append(s.as_str());
                m
            },
            ReadError::ParseError(s) => s.clone(),
            ReadError::ChecksumMismatch { .. } => String::from_str("ChecksumMismatch"),
            ReadError::SizeMismatch { .. } => String::from_str("SizeMismatch"),
        }
    }
}

} // verus!
