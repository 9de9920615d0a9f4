//! Continuous mode: the device sends data records unasked, one frame each, until it stops;
//! a read timeout on the length of the next frame is the only sign that it stopped.
use vstd::prelude::*;

use crate::command::Command;
use crate::data::{data_record, Data};
use crate::device::{read_data_frame, response};
use crate::error::{read_outcome, ReadError, TransportError};

verus! {

/// What the transport delivered when one frame was asked for.
#[derive(Debug)]
pub enum Incoming {
    /// A whole frame: its two length bytes and the rest that they announce.
    Frame(Vec<u8>),
    /// Reading the two length bytes failed.
    LengthFailed(TransportError),
    /// The length bytes arrived; reading the rest failed.
    BodyFailed(TransportError),
}

/// The next item of a continuous-mode stream, from what the transport delivered: the end
/// of the stream when the length read timed out; an error item for any other transport
/// failure, after which the stream can be pulled again; else the record that the frame
/// carries, or why it does not.
pub fn continuous_mode_next(incoming: Incoming) -> (r: Option<Result<Data, ReadError>>)
    requires
        incoming matches Incoming::Frame(f) ==> f@.len() >= 2,
    ensures
        match incoming {
            Incoming::LengthFailed(TransportError::TimedOut) => r is None,
            Incoming::LengthFailed(e) => r == Some(Err::<Data, ReadError>(ReadError::PipeError(e))),
            Incoming::BodyFailed(e) => r == Some(Err::<Data, ReadError>(ReadError::PipeError(e))),
            Incoming::Frame(f) => r matches Some(x) && read_outcome(
                x,
                response(f@, Command::GetDataResp, data_record(f@, 3)),
            ),
        },
{
    match incoming {
        Incoming::LengthFailed(TransportError::TimedOut) => None,
        Incoming::LengthFailed(e) => Some(Err(ReadError::PipeError(e))),
        Incoming::BodyFailed(e) => Some(Err(ReadError::PipeError(e))),
        Incoming::Frame(f) => Some(read_data_frame(f.as_slice())),
    }
}

} // verus!
