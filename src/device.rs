//! The device's request/response exchanges: the frame each request sends, and a verified
//! decoder for each response frame.
use vstd::prelude::*;

use crate::calibration::{cal_score_at, CalOption, CalScore, UserCalResponse, UserCalResponseReserved};
use crate::command::Command;
use crate::config::{config_value, ConfigID, ConfigPair};
use crate::data::{data_record, Data, DataID};
use crate::error::{
    outcome, parse_error, read_outcome, reports, save_failed_text, Failure, ParseReason, RWError,
    ReadError,
};
use crate::frame::{
    bits_at, bool_at, byte_at, declared_len, finish, fits, frame_bytes, lemma_frame_layout,
    lemma_u32_in_payload, long_at, overrun, text_at, word_at,
    write_frame, FrameReader, Get,
};
use crate::wire::{lemma_be32_of_bytes, push_u32, push_u64, u32_bytes, u64_bytes};

verus! {

/// Sensor acquisition parameters, with the field the device maker reserves.
#[derive(Debug, Clone, Copy, PartialEq, Eq)]
pub struct AcqParamsReserved {
    /// True for polled acquisition, false for continuous acquisition.
    pub acquisition_mode: bool,
    /// Whether the FIR filter is flushed after each measurement.
    pub flush_filter: bool,
    /// Reserved; the bits of an IEEE-754 single-precision float.
    pub reserved: u32,
    /// Seconds between samples in continuous mode; the bits of an IEEE-754
    /// single-precision float.
    pub sample_delay: u32,
}

/// Sensor acquisition parameters.
#[derive(Debug, Clone, Copy, PartialEq, Eq)]
pub struct AcqParams {
    /// True for polled acquisition, false for continuous acquisition.
    pub acquisition_mode: bool,
    /// Whether the FIR filter is flushed after each measurement.
    pub flush_filter: bool,
    /// Seconds between samples in continuous mode; the bits of an IEEE-754
    /// single-precision float.
    pub sample_delay: u32,
}

impl AcqParams {
    /// The parameters without the reserved field.
    pub fn from_reserved(value: AcqParamsReserved) -> (r: AcqParams)
        ensures
            r == (AcqParams {
                acquisition_mode: value.acquisition_mode,
                flush_filter: value.flush_filter,
                sample_delay: value.sample_delay,
            }),
    {
        AcqParams {
            acquisition_mode: value.acquisition_mode,
            flush_filter: value.flush_filter,
            sample_delay: value.sample_delay,
        }
    }

    /// The parameters with a reserved field of zero bits.
    pub fn with_zero_reserved(&self) -> (r: AcqParamsReserved)
        ensures
            r == (AcqParamsReserved {
                acquisition_mode: self.acquisition_mode,
                flush_filter: self.flush_filter,
                reserved: 0,
                sample_delay: self.sample_delay,
            }),
    {
        AcqParamsReserved {
            acquisition_mode: self.acquisition_mode,
            flush_filter: self.flush_filter,
            reserved: 0,
            sample_delay: self.sample_delay,
        }
    }
}

/// Device type and firmware revision.
#[derive(Debug, PartialEq, Eq)]
pub struct ModInfoResp {
    pub device_type: String,
    pub revision: String,
}

/// A request to the device.
#[derive(Debug, PartialEq, Eq)]
pub enum Request {
    /// Queries the device type and firmware revision.
    GetModInfo,
    /// Queries the serial number.
    SerialNumber,
    /// Sets one configuration parameter, without saving it.
    SetConfig(ConfigPair),
    /// Queries one configuration parameter.
    GetConfig(ConfigID),
    /// Saves configuration and user calibration to non-volatile memory.
    Save,
    /// Sets the acquisition parameters.
    SetAcqParams(AcqParamsReserved),
    /// Queries the acquisition parameters.
    GetAcqParams,
    /// Selects the channels that data records report, in order.
    SetDataComponents(Vec<DataID>),
    /// Queries one data record.
    GetData,
    /// Starts continuous output.
    StartContinuousMode,
    /// Stops continuous output.
    StopContinuousMode,
    /// Powers the module down.
    PowerDown,
    /// Wakes the module: any byte on its receive line does; the serial number query is sent.
    PowerUp,
    /// Starts user calibration with the given geometry.
    StartCal(CalOption),
    /// Takes a calibration sample.
    TakeUserCalSample,
    /// Aborts user calibration; no answer follows.
    StopCal,
    /// Restores the factory magnetometer coefficients. The request carries the StartCal
    /// command id; whether the device takes the FactoryMagCoeff id instead is unconfirmed.
    FactoryMagCoeff,
    /// Restores the factory accelerometer coefficients.
    FactoryAccelCoeff,
    /// Copies a coefficient set: the set type (0 magnetic, 1 accelerometer), then the source
    /// index in bits 7-4 and the destination index in bits 3-0.
    CopyCoeffSet { set_type: u8, set_indexes: u8 },
    /// Sets the FIR filter taps (bits of IEEE-754 double-precision floats).
    SetFIRFilters(Vec<u64>),
    /// Queries the FIR filter taps.
    GetFIRFilters,
}

/// The payload bytes of FIR taps: eight big-endian bytes each, in order.
pub open spec fn taps_bytes(t: Seq<u64>) -> Seq<u8>
    decreases t.len(),
{
    if t.len() == 0 {
        Seq::empty()
    } else {
        taps_bytes(t.drop_last()) + u64_bytes(t.last())
    }
}

/// Each tap takes eight bytes.
pub proof fn lemma_taps_bytes_len(t: Seq<u64>)
    ensures
        taps_bytes(t).len() == 8 * t.len(),
    decreases t.len(),
{
    if t.len() > 0 {
        lemma_taps_bytes_len(t.drop_last());
    }
}

/// The bytes of a boolean flag.
pub open spec fn flag(b: bool) -> u8 {
    if b {
        1
    } else {
        0
    }
}

impl Request {
    /// The command id that the request's frame carries.
    pub open spec fn command(&self) -> Command {
        match self {
            Request::GetModInfo => Command::GetModInfo,
            Request::SerialNumber => Command::SerialNumber,
            Request::SetConfig(_) => Command::SetConfig,
            Request::GetConfig(_) => Command::GetConfig,
            Request::Save => Command::Save,
            Request::SetAcqParams(_) => Command::SetAcqParams,
            Request::GetAcqParams => Command::GetAcqParams,
            Request::SetDataComponents(_) => Command::SetDataComponents,
            Request::GetData => Command::GetData,
            Request::StartContinuousMode => Command::StartContinuousMode,
            Request::StopContinuousMode => Command::StopContinuousMode,
            Request::PowerDown => Command::PowerDown,
            Request::PowerUp => Command::SerialNumber,
            Request::StartCal(_) => Command::StartCal,
            Request::TakeUserCalSample => Command::TakeUserCalSample,
            Request::StopCal => Command::StopCal,
            Request::FactoryMagCoeff => Command::StartCal,
            Request::FactoryAccelCoeff => Command::FactorylAccelCoeff,
            Request::CopyCoeffSet { .. } => Command::CopyCoeffSet,
            Request::SetFIRFilters(_) => Command::SetFIRFilters,
            Request::GetFIRFilters => Command::GetFIRFilters,
        }
    }

    /// The command that answers the request, if the device answers it: for a wake-up the
    /// power-up notice (or the serial number), for a calibration sample the count (or the
    /// score).
    pub open spec fn answer(&self) -> Option<Command> {
        match self {
            Request::GetModInfo => Some(Command::GetModInfoResp),
            Request::SerialNumber => Some(Command::SerialNumberResp),
            Request::SetConfig(_) => Some(Command::SetConfigDone),
            Request::GetConfig(_) => Some(Command::GetConfigResp),
            Request::Save => Some(Command::SaveDone),
            Request::SetAcqParams(_) => Some(Command::SetAcqParamsDone),
            Request::GetAcqParams => Some(Command::GetAcqParamsResp),
            Request::SetDataComponents(_) => None,
            Request::GetData => Some(Command::GetDataResp),
            Request::StartContinuousMode => None,
            Request::StopContinuousMode => None,
            Request::PowerDown => Some(Command::PowerDownDone),
            Request::PowerUp => Some(Command::PowerUpDone),
            Request::StartCal(_) => Some(Command::UserCalSampleCount),
            Request::TakeUserCalSample => Some(Command::UserCalSampleCount),
            Request::StopCal => None,
            Request::FactoryMagCoeff => Some(Command::FactoryMagCoeffDone),
            Request::FactoryAccelCoeff => Some(Command::FactoryAccelCoeffDone),
            Request::CopyCoeffSet { .. } => Some(Command::CopyCoeffSetDone),
            Request::SetFIRFilters(_) => Some(Command::SetFIRFiltersDone),
            Request::GetFIRFilters => Some(Command::GetFIRFiltersResp),
        }
    }

    /// The command that answers the request, if the device answers it.
    pub fn expected_answer(&self) -> (r: Option<Command>)
        ensures
            r == self.answer(),
    {
        match self {
            Request::GetModInfo => Some(Command::GetModInfoResp),
            Request::SerialNumber => Some(Command::SerialNumberResp),
            Request::SetConfig(_) => Some(Command::SetConfigDone),
            Request::GetConfig(_) => Some(Command::GetConfigResp),
            Request::Save => Some(Command::SaveDone),
            Request::SetAcqParams(_) => Some(Command::SetAcqParamsDone),
            Request::GetAcqParams => Some(Command::GetAcqParamsResp),
            Request::SetDataComponents(_) => None,
            Request::GetData => Some(Command::GetDataResp),
            Request::StartContinuousMode => None,
            Request::StopContinuousMode => None,
            Request::PowerDown => Some(Command::PowerDownDone),
            Request::PowerUp => Some(Command::PowerUpDone),
            Request::StartCal(_) => Some(Command::UserCalSampleCount),
            Request::TakeUserCalSample => Some(Command::UserCalSampleCount),
            Request::StopCal => None,
            Request::FactoryMagCoeff => Some(Command::FactoryMagCoeffDone),
            Request::FactoryAccelCoeff => Some(Command::FactoryAccelCoeffDone),
            Request::CopyCoeffSet { .. } => Some(Command::CopyCoeffSetDone),
            Request::SetFIRFilters(_) => Some(Command::SetFIRFiltersDone),
            Request::GetFIRFilters => Some(Command::GetFIRFiltersResp),
        }
    }

    /// The payload that the request's frame carries.
    pub open spec fn payload(&self) -> Seq<u8> {
        match self {
            Request::SetConfig(p) => p.encoding(),
            Request::GetConfig(id) => seq![id.id()],
            Request::SetAcqParams(a) => seq![flag(a.acquisition_mode), flag(a.flush_filter)]
                + u32_bytes(a.reserved) + u32_bytes(a.sample_delay),
            Request::SetDataComponents(c) => seq![c@.len() as u8] + c@.map_values(
                |d: DataID| d.id(),
            ),
            Request::StartCal(o) => u32_bytes(o.code()),
            Request::CopyCoeffSet { set_type, set_indexes } => seq![*set_type, *set_indexes],
            Request::SetFIRFilters(t) => seq![3u8, 1u8] + taps_bytes(t@),
            Request::GetFIRFilters => seq![3u8, 1u8],
            _ => Seq::empty(),
        }
    }

    /// The request fits the wire: a channel list counts at most 255 channels, and a
    /// frame's length fits its `u16` field.
    pub open spec fn fits_wire(&self) -> bool {
        match self {
            Request::SetDataComponents(c) => c@.len() <= 255,
            Request::SetFIRFilters(t) => t@.len() <= 8190,
            _ => true,
        }
    }

    /// Whether the request fits the wire.
    pub fn is_sendable(&self) -> (r: bool)
        ensures
            r == self.fits_wire(),
    {
        match self {
            Request::SetDataComponents(c) => c.len() <= 255,
            Request::SetFIRFilters(t) => t.len() <= 8190,
            _ => true,
        }
    }

    /// The payload bytes of the request.
    fn payload_bytes(&self) -> (r: Vec<u8>)
        requires
            self.fits_wire(),
        ensures
            r@ == self.payload(),
            r@.len() + 5 <= u16::MAX,
    {
        let mut out: Vec<u8> = Vec::new();
        match self {
            Request::SetConfig(p) => {
                out = p.to_bytes();
            },
            Request::GetConfig(id) => {
                out.push(id.discriminant());
            },
            Request::SetAcqParams(a) => {
                out.push(if a.acquisition_mode {
                    1
                } else {
                    0
                });
                out.push(if a.flush_filter {
                    1
                } else {
                    0
                });
                push_u32(&mut out, a.reserved);
                push_u32(&mut out, a.sample_delay);
                assert(out@ =~= self.payload());
            },
            Request::SetDataComponents(c) => {
                out.push(c.len() as u8);
                let mut i: usize = 0;
                while i < c.len()
                    invariant
                        i <= c@.len() <= 255,
                        out@ =~= seq![c@.len() as u8] + c@.subrange(0, i as int).map_values(
                            |d: DataID| d.id(),
                        ),
                    decreases c@.len() - i,
                {
                    out.push(c[i].discriminant());
                    i = i + 1;
                    assert(c@.subrange(0, i as int).map_values(|d: DataID| d.id()) =~= c@.subrange(
                        0,
                        i - 1,
                    ).map_values(|d: DataID| d.id()).push(c@[i - 1].id()));
                }
                assert(c@.subrange(0, c@.len() as int) =~= c@);
            },
            Request::StartCal(o) => {
                push_u32(&mut out, o.discriminant());
                assert(out@ =~= self.payload());
            },
            Request::CopyCoeffSet { set_type, set_indexes } => {
                out.push(*set_type);
                out.push(*set_indexes);
                assert(out@ =~= self.payload());
            },
            Request::SetFIRFilters(t) => {
                out.push(3);
                out.push(1);
                let mut i: usize = 0;
                while i < t.len()
                    invariant
                        i <= t@.len() <= 8190,
                        out@ =~= seq![3u8, 1u8] + taps_bytes(t@.subrange(0, i as int)),
                    decreases t@.len() - i,
                {
                    push_u64(&mut out, t[i]);
                    i = i + 1;
                    assert(t@.subrange(0, i as int).drop_last() =~= t@.subrange(0, i - 1));
                }
                assert(t@.subrange(0, t@.len() as int) =~= t@);
                proof {
                    lemma_taps_bytes_len(t@);
                }
            },
            Request::GetFIRFilters => {
                out.push(3);
                out.push(1);
                assert(out@ =~= self.payload());
            },
            _ => {
                assert(out@ =~= self.payload());
            },
        }
        out
    }

    /// The frame that sends the request.
    pub fn to_frame(&self) -> (r: Vec<u8>)
        requires
            self.fits_wire(),
        ensures
            r@ == frame_bytes(self.command().id(), self.payload()),
    {
        let payload = self.payload_bytes();
        let command = match self {
            Request::GetModInfo => Command::GetModInfo,
            Request::SerialNumber => Command::SerialNumber,
            Request::SetConfig(_) => Command::SetConfig,
            Request::GetConfig(_) => Command::GetConfig,
            Request::Save => Command::Save,
            Request::SetAcqParams(_) => Command::SetAcqParams,
            Request::GetAcqParams => Command::GetAcqParams,
            Request::SetDataComponents(_) => Command::SetDataComponents,
            Request::GetData => Command::GetData,
            Request::StartContinuousMode => Command::StartContinuousMode,
            Request::StopContinuousMode => Command::StopContinuousMode,
            Request::PowerDown => Command::PowerDown,
            Request::PowerUp => Command::SerialNumber,
            Request::StartCal(_) => Command::StartCal,
            Request::TakeUserCalSample => Command::TakeUserCalSample,
            Request::StopCal => Command::StopCal,
            Request::FactoryMagCoeff => Command::StartCal,
            Request::FactoryAccelCoeff => Command::FactorylAccelCoeff,
            Request::CopyCoeffSet { .. } => Command::CopyCoeffSet,
            Request::SetFIRFilters(_) => Command::SetFIRFilters,
            Request::GetFIRFilters => Command::GetFIRFilters,
        };
        write_frame(command, Some(payload.as_slice()))
    }
}

/// The check of a response's command byte against `expected`.
pub open spec fn command_check(f: Seq<u8>, expected: Command) -> Option<Failure> {
    if !fits(f, 2, 1) {
        Some(overrun(f, 2, 1))
    } else if f[2] != expected.id() {
        Some(Failure::Parse(ParseReason::UnexpectedResponse { expected: expected.id(), got: f[2] }))
    } else {
        None
    }
}

/// A response frame: its command byte must be `expected`, then its content is read as
/// `body` says from position 3, then the frame must close cleanly.
pub open spec fn response<T>(f: Seq<u8>, expected: Command, body: Result<(T, int), Failure>) -> Result<
    T,
    Failure,
> {
    match command_check(f, expected) {
        Some(e) => Err(e),
        None => match body {
            Ok((v, q)) => finish(f, q, v),
            Err(e) => Err(e),
        },
    }
}

/// No content: the frame closes right after its command byte.
pub open spec fn nothing_at(p: int) -> Result<((), int), Failure> {
    Ok(((), p))
}

/// Device type, then revision: four bytes of text each.
pub open spec fn mod_info_at(f: Seq<u8>, p: int) -> Result<((Seq<char>, Seq<char>), int), Failure> {
    match text_at(f, p, 4) {
        Err(e) => Err(e),
        Ok((t, q)) => match text_at(f, q, 4) {
            Err(e) => Err(e),
            Ok((r, q2)) => Ok(((t, r), q2)),
        },
    }
}

/// Acquisition parameters at `p`.
pub open spec fn acq_params_at(f: Seq<u8>, p: int) -> Result<(AcqParamsReserved, int), Failure> {
    match bool_at(f, p) {
        Err(e) => Err(e),
        Ok((mode, q1)) => match bool_at(f, q1) {
            Err(e) => Err(e),
            Ok((flush, q2)) => match bits_at(f, q2) {
                Err(e) => Err(e),
                Ok((reserved, q3)) => match bits_at(f, q3) {
                    Err(e) => Err(e),
                    Ok((delay, q4)) => Ok(
                        (
                            AcqParamsReserved {
                                acquisition_mode: mode,
                                flush_filter: flush,
                                reserved,
                                sample_delay: delay,
                            },
                            q4,
                        ),
                    ),
                },
            },
        },
    }
}

/// `n` FIR taps from `p`, in order.
pub open spec fn taps_at(f: Seq<u8>, p: int, n: nat) -> Result<(Seq<u64>, int), Failure>
    decreases n,
{
    if n == 0 {
        Ok((Seq::empty(), p))
    } else {
        match taps_at(f, p, (n - 1) as nat) {
            Err(e) => Err(e),
            Ok((t, q)) => match long_at(f, q) {
                Err(e) => Err(e),
                Ok((v, q2)) => Ok((t.push(v), q2)),
            },
        }
    }
}

/// FIR filter settings at `p`: two fixed bytes, a count, then that many taps.
pub open spec fn fir_at(f: Seq<u8>, p: int) -> Result<(Seq<u64>, int), Failure> {
    match byte_at(f, p) {
        Err(e) => Err(e),
        Ok((_, q1)) => match byte_at(f, q1) {
            Err(e) => Err(e),
            Ok((_, q2)) => match byte_at(f, q2) {
                Err(e) => Err(e),
                Ok((n, q3)) => taps_at(f, q3, n as nat),
            },
        },
    }
}

/// What the device answers to a calibration start or sample: a sample count, or the
/// score after the final point.
pub open spec fn cal_sample(f: Seq<u8>) -> Result<UserCalResponseReserved, Failure> {
    if !fits(f, 2, 1) {
        Err(overrun(f, 2, 1))
    } else if f[2] == Command::UserCalSampleCount.id() {
        match bits_at(f, 3) {
            Ok((c, q)) => finish(f, q, UserCalResponseReserved::SampleCount(c)),
            Err(e) => Err(e),
        }
    } else if f[2] == Command::UserCalScore.id() {
        match cal_score_at(f, 3) {
            Ok((s, q)) => finish(f, q, UserCalResponseReserved::UserCalScore(s)),
            Err(e) => Err(e),
        }
    } else {
        Err(
            Failure::Parse(
                ParseReason::UnexpectedResponse {
                    expected: Command::UserCalSampleCount.id(),
                    got: f[2],
                },
            ),
        )
    }
}

/// What the device answers when woken: the power-up notice, or the serial number when it
/// was awake already.
pub open spec fn power_up_answer(f: Seq<u8>) -> Result<(), Failure> {
    if !fits(f, 2, 1) {
        Err(overrun(f, 2, 1))
    } else if f[2] == Command::PowerUpDone.id() {
        finish(f, 3, ())
    } else if f[2] == Command::SerialNumberResp.id() {
        match bits_at(f, 3) {
            Ok((_, q)) => finish(f, q, ()),
            Err(e) => Err(e),
        }
    } else {
        Err(
            Failure::Parse(
                ParseReason::UnexpectedResponse { expected: Command::PowerUpDone.id(), got: f[2] },
            ),
        )
    }
}

/// `r` is the model outcome `m` of a decoder whose value is a sequence held in a `Vec`.
pub open spec fn seq_outcome<T>(r: Result<Vec<T>, RWError>, m: Result<Seq<T>, Failure>) -> bool {
    match m {
        Ok(v) => r matches Ok(x) && x@ == v,
        Err(f) => r matches Err(RWError::ReadError(e)) && reports(e, f),
    }
}

/// Reads the command byte of a response and checks it.
fn open_response<'a>(frame: &'a [u8], expected: Command) -> (r: Result<(FrameReader<'a>, u16), ReadError>)
    requires
        frame@.len() >= 2,
    ensures
        match r {
            Ok((rd, len)) => {
                &&& rd.bytes() == frame@
                &&& rd.position() == 3
                &&& len == declared_len(frame@)
                &&& fits(frame@, 2, 1)
                &&& frame@[2] == expected.id()
            },
            Err(e) => command_check(frame@, expected) matches Some(f) && reports(e, f),
        },
{
    let (mut rd, len) = FrameReader::new(frame);
    let got = match rd.get_u8() {
        Ok(c) => c,
        Err(e) => return Err(e),
    };
    let want = expected.discriminant();
    if got != want {
        return Err(parse_error(ParseReason::UnexpectedResponse { expected: want, got }));
    }
    Ok((rd, len))
}

/// Closes a response frame, giving `v` when it closes cleanly.
fn close_response<T>(rd: &mut FrameReader, len: u16, v: T) -> (r: Result<T, RWError>)
    requires
        old(rd).position() + 2 <= old(rd).bytes().len(),
        len == declared_len(old(rd).bytes()),
    ensures
        outcome(r, finish(old(rd).bytes(), old(rd).position(), v)),
{
    match rd.end_frame(len) {
        Ok(()) => Ok(v),
        Err(e) => Err(RWError::ReadError(e)),
    }
}

/// Decodes the answer to a module information query.
pub fn get_mod_info_response(frame: &[u8]) -> (r: Result<ModInfoResp, RWError>)
    requires
        frame@.len() >= 2,
    ensures
        match response(frame@, Command::GetModInfoResp, mod_info_at(frame@, 3)) {
            Ok((t, v)) => r matches Ok(m) && m.device_type@ == t && m.revision@ == v,
            Err(f) => r matches Err(RWError::ReadError(e)) && reports(e, f),
        },
{
    let (mut rd, len) = match open_response(frame, Command::GetModInfoResp) {
        Ok(x) => x,
        Err(e) => return Err(RWError::ReadError(e)),
    };
    let device_type = match rd.get_string(4) {
        Ok(s) => s,
        Err(e) => return Err(RWError::ReadError(e)),
    };
    let revision = match rd.get_string(4) {
        Ok(s) => s,
        Err(e) => return Err(RWError::ReadError(e)),
    };
    match rd.end_frame(len) {
        Ok(()) => Ok(ModInfoResp { device_type, revision }),
        Err(e) => Err(RWError::ReadError(e)),
    }
}

/// Decodes the answer to a serial number query.
pub fn serial_number_response(frame: &[u8]) -> (r: Result<u32, RWError>)
    requires
        frame@.len() >= 2,
    ensures
        outcome(r, response(frame@, Command::SerialNumberResp, bits_at(frame@, 3))),
{
    let (mut rd, len) = match open_response(frame, Command::SerialNumberResp) {
        Ok(x) => x,
        Err(e) => return Err(RWError::ReadError(e)),
    };
    let v = match Get::<u32>::get(&mut rd) {
        Ok(v) => v,
        Err(e) => return Err(RWError::ReadError(e)),
    };
    close_response(&mut rd, len, v)
}

/// Decodes an answer that carries nothing: the frame must hold the `done` command.
pub fn done_response(frame: &[u8], done: Command) -> (r: Result<(), RWError>)
    requires
        frame@.len() >= 2,
    ensures
        outcome(r, response(frame@, done, nothing_at(3))),
{
    let (mut rd, len) = match open_response(frame, done) {
        Ok(x) => x,
        Err(e) => return Err(RWError::ReadError(e)),
    };
    close_response(&mut rd, len, ())
}

/// Decodes the answer to a configuration query for parameter `id`.
pub fn get_config_response(frame: &[u8], id: ConfigID) -> (r: Result<ConfigPair, RWError>)
    requires
        frame@.len() >= 2,
    ensures
        outcome(r, response(frame@, Command::GetConfigResp, config_value(frame@, 3, id))),
{
    let (mut rd, len) = match open_response(frame, Command::GetConfigResp) {
        Ok(x) => x,
        Err(e) => return Err(RWError::ReadError(e)),
    };
    let v = match rd.get_config_value(id) {
        Ok(v) => v,
        Err(e) => return Err(RWError::ReadError(e)),
    };
    close_response(&mut rd, len, v)
}

/// Decodes the answer to a save: its status must be 0, else the device reports that the
/// settings were not saved.
pub fn save_response(frame: &[u8]) -> (r: Result<(), RWError>)
    requires
        frame@.len() >= 2,
    ensures
        match response(frame@, Command::SaveDone, word_at(frame@, 3)) {
            Ok(code) => if code == 0 {
                r == Ok::<(), RWError>(())
            } else {
                r matches Err(RWError::DeviceError(s)) && s@ == save_failed_text()
            },
            Err(f) => r matches Err(RWError::ReadError(e)) && reports(e, f),
        },
{
    let (mut rd, len) = match open_response(frame, Command::SaveDone) {
        Ok(x) => x,
        Err(e) => return Err(RWError::ReadError(e)),
    };
    let error_code = match Get::<u16>::get(&mut rd) {
        Ok(v) => v,
        Err(e) => return Err(RWError::ReadError(e)),
    };
    match rd.end_frame(len) {
        Ok(()) => {},
        Err(e) => return Err(RWError::ReadError(e)),
    }
    if error_code != 0 {
        return Err(
            RWError::DeviceError(
                String::from_str("Received error code from device, settings not saved successfully"),
            ),
        );
    }
    Ok(())
}

/// Decodes the answer to an acquisition parameters query.
pub fn get_acq_params_response(frame: &[u8]) -> (r: Result<AcqParamsReserved, RWError>)
    requires
        frame@.len() >= 2,
    ensures
        outcome(r, response(frame@, Command::GetAcqParamsResp, acq_params_at(frame@, 3))),
{
    let (mut rd, len) = match open_response(frame, Command::GetAcqParamsResp) {
        Ok(x) => x,
        Err(e) => return Err(RWError::ReadError(e)),
    };
    let acquisition_mode = match Get::<bool>::get(&mut rd) {
        Ok(v) => v,
        Err(e) => return Err(RWError::ReadError(e)),
    };
    let flush_filter = match Get::<bool>::get(&mut rd) {
        Ok(v) => v,
        Err(e) => return Err(RWError::ReadError(e)),
    };
    let reserved = match Get::<u32>::get(&mut rd) {
        Ok(v) => v,
        Err(e) => return Err(RWError::ReadError(e)),
    };
    let sample_delay = match Get::<u32>::get(&mut rd) {
        Ok(v) => v,
        Err(e) => return Err(RWError::ReadError(e)),
    };
    close_response(
        &mut rd,
        len,
        AcqParamsReserved { acquisition_mode, flush_filter, reserved, sample_delay },
    )
}

/// Decodes a frame that carries one data record, as the answer to a data query or an
/// item of continuous output.
pub fn read_data_frame(frame: &[u8]) -> (r: Result<Data, ReadError>)
    requires
        frame@.len() >= 2,
    ensures
        read_outcome(r, response(frame@, Command::GetDataResp, data_record(frame@, 3))),
{
    let (mut rd, len) = match open_response(frame, Command::GetDataResp) {
        Ok(x) => x,
        Err(e) => return Err(e),
    };
    let v = match Get::<Data>::get(&mut rd) {
        Ok(v) => v,
        Err(e) => return Err(e),
    };
    match rd.end_frame(len) {
        Ok(()) => Ok(v),
        Err(e) => Err(e),
    }
}

/// Decodes the answer to a data query: one data record.
pub fn get_data_response(frame: &[u8]) -> (r: Result<Data, RWError>)
    requires
        frame@.len() >= 2,
    ensures
        outcome(r, response(frame@, Command::GetDataResp, data_record(frame@, 3))),
{
    match read_data_frame(frame) {
        Ok(d) => Ok(d),
        Err(e) => Err(RWError::ReadError(e)),
    }
}

/// Decodes the answer to a wake-up: the power-up notice, or the serial number when the
/// device was awake already.
pub fn power_up_response(frame: &[u8]) -> (r: Result<(), RWError>)
    requires
        frame@.len() >= 2,
    ensures
        outcome(r, power_up_answer(frame@)),
{
    let (mut rd, len) = FrameReader::new(frame);
    let resp_command = match rd.get_u8() {
        Ok(c) => c,
        Err(e) => return Err(RWError::ReadError(e)),
    };
    if resp_command == Command::PowerUpDone.discriminant() {
        close_response(&mut rd, len, ())
    } else if resp_command == Command::SerialNumberResp.discriminant() {
        match Get::<u32>::get(&mut rd) {
            Ok(_) => {},
            Err(e) => return Err(RWError::ReadError(e)),
        }
        close_response(&mut rd, len, ())
    } else {
        Err(
            RWError::ReadError(
                parse_error(
                    ParseReason::UnexpectedResponse {
                        expected: Command::PowerUpDone.discriminant(),
                        got: resp_command,
                    },
                ),
            ),
        )
    }
}

/// Decodes the answer to a calibration start or sample, the reserved score field included.
pub fn take_user_cal_sample_reserved_response(frame: &[u8]) -> (r: Result<UserCalResponseReserved, RWError>)
    requires
        frame@.len() >= 2,
    ensures
        outcome(r, cal_sample(frame@)),
{
    let (mut rd, len) = FrameReader::new(frame);
    let resp_command = match rd.get_u8() {
        Ok(c) => c,
        Err(e) => return Err(RWError::ReadError(e)),
    };
    if resp_command == Command::UserCalSampleCount.discriminant() {
        let count = match Get::<u32>::get(&mut rd) {
            Ok(v) => v,
            Err(e) => return Err(RWError::ReadError(e)),
        };
        close_response(&mut rd, len, UserCalResponseReserved::SampleCount(count))
    } else if resp_command == Command::UserCalScore.discriminant() {
        let score = match Get::<CalScore>::get(&mut rd) {
            Ok(v) => v,
            Err(e) => return Err(RWError::ReadError(e)),
        };
        close_response(&mut rd, len, UserCalResponseReserved::UserCalScore(score))
    } else {
        Err(
            RWError::ReadError(
                parse_error(
                    ParseReason::UnexpectedResponse {
                        expected: Command::UserCalSampleCount.discriminant(),
                        got: resp_command,
                    },
                ),
            ),
        )
    }
}

/// Decodes the answer to a calibration sample.
pub fn take_user_cal_sample_response(frame: &[u8]) -> (r: Result<UserCalResponse, RWError>)
    requires
        frame@.len() >= 2,
    ensures
        match cal_sample(frame@) {
            Ok(v) => r == Ok::<UserCalResponse, RWError>(UserCalResponse::without_reserved(v)),
            Err(f) => r matches Err(RWError::ReadError(e)) && reports(e, f),
        },
{
    match take_user_cal_sample_reserved_response(frame) {
        Ok(v) => Ok(UserCalResponse::from_reserved(v)),
        Err(e) => Err(e),
    }
}

/// Decodes the answer to a calibration start: the sample count, 0 at the start.
pub fn start_cal_response(frame: &[u8]) -> (r: Result<u32, RWError>)
    requires
        frame@.len() >= 2,
    ensures
        outcome(r, response(frame@, Command::UserCalSampleCount, bits_at(frame@, 3))),
{
    let (mut rd, len) = match open_response(frame, Command::UserCalSampleCount) {
        Ok(x) => x,
        Err(e) => return Err(RWError::ReadError(e)),
    };
    let v = match Get::<u32>::get(&mut rd) {
        Ok(v) => v,
        Err(e) => return Err(RWError::ReadError(e)),
    };
    close_response(&mut rd, len, v)
}

/// Decodes the answer to a FIR filter query: the taps, as bits of IEEE-754
/// double-precision floats.
pub fn get_fir_filters_response(frame: &[u8]) -> (r: Result<Vec<u64>, RWError>)
    requires
        frame@.len() >= 2,
    ensures
        seq_outcome(r, response(frame@, Command::GetFIRFiltersResp, fir_at(frame@, 3))),
{
    let (mut rd, len) = match open_response(frame, Command::GetFIRFiltersResp) {
        Ok(x) => x,
        Err(e) => return Err(RWError::ReadError(e)),
    };
    let ghost f = frame@;
    match rd.get_u8() {
        Ok(_) => {},
        Err(e) => return Err(RWError::ReadError(e)),
    }
    match rd.get_u8() {
        Ok(_) => {},
        Err(e) => return Err(RWError::ReadError(e)),
    }
    let count = match rd.get_u8() {
        Ok(c) => c,
        Err(e) => return Err(RWError::ReadError(e)),
    };
    let ghost q3 = rd.position();
    let mut taps: Vec<u64> = Vec::new();
    let mut i: u8 = 0;
    while i < count
        invariant
            rd.bytes() == f,
            frame@ == f,
            len == declared_len(f),
            command_check(f, Command::GetFIRFiltersResp) is None,
            fir_at(f, 3) == taps_at(f, q3, count as nat),
            i <= count,
            taps_at(f, q3, i as nat) == Ok::<(Seq<u64>, int), Failure>((taps@, rd.position())),
            rd.position() + 2 <= f.len(),
        decreases count - i,
    {
        match Get::<u64>::get(&mut rd) {
            Ok(v) => taps.push(v),
            Err(e) => {
                proof {
                    lemma_taps_fail_later(f, q3, i as nat, count as nat);
                }
                return Err(RWError::ReadError(e));
            },
        }
        i = i + 1;
    }
    match rd.end_frame(len) {
        Ok(()) => Ok(taps),
        Err(e) => Err(RWError::ReadError(e)),
    }
}

/// Once reading taps fails at the next one, reading more fails the same way.
proof fn lemma_taps_fail_later(f: Seq<u8>, p: int, i: nat, n: nat)
    requires
        i < n,
        taps_at(f, p, i) is Ok,
        taps_at(f, p, (i + 1) as nat) is Err,
    ensures
        taps_at(f, p, n) == taps_at(f, p, (i + 1) as nat),
    decreases n - i,
{
    if n > i + 1 {
        lemma_taps_fail_later(f, p, i, (n - 1) as nat);
    }
}

/// A frame whose first content bytes hold acquisition parameters in wire order decodes
/// them.
proof fn lemma_acq_params_frame(f: Seq<u8>, a: AcqParamsReserved)
    requires
        f.len() == 15,
        f[2] == Command::GetAcqParamsResp.id(),
        f[3] == flag(a.acquisition_mode),
        f[4] == flag(a.flush_filter),
        crate::frame::u32_at(f, 5) == a.reserved,
        crate::frame::u32_at(f, 9) == a.sample_delay,
        crate::frame::close(f, 13, declared_len(f)) is None,
    ensures
        response(f, Command::GetAcqParamsResp, acq_params_at(f, 3)) == Ok::<AcqParamsReserved, Failure>(a),
{
    assert(acq_params_at(f, 3) == Ok::<(AcqParamsReserved, int), Failure>((a, 13)));
}

/// Acquisition parameters, the reserved field included, come back exactly: an answer that
/// carries the payload of a request setting them decodes to them.
pub proof fn lemma_acq_params_round_trip(a: AcqParamsReserved)
    ensures
        response(
            frame_bytes(Command::GetAcqParamsResp.id(), Request::SetAcqParams(a).payload()),
            Command::GetAcqParamsResp,
            acq_params_at(
                frame_bytes(Command::GetAcqParamsResp.id(), Request::SetAcqParams(a).payload()),
                3,
            ),
        ) == Ok::<AcqParamsReserved, Failure>(a),
{
    let c = Command::GetAcqParamsResp.id();
    let p = Request::SetAcqParams(a).payload();
    lemma_be32_of_bytes(a.reserved);
    lemma_be32_of_bytes(a.sample_delay);
    assert(p.len() == 10);
    assert(p.subrange(2, 6) =~= u32_bytes(a.reserved));
    assert(p.subrange(6, 10) =~= u32_bytes(a.sample_delay));
    lemma_frame_layout(c, p);
    lemma_u32_in_payload(c, p, 2, a.reserved);
    lemma_u32_in_payload(c, p, 6, a.sample_delay);
    let f = frame_bytes(c, p);
    assert(f[3 + 0int] == p[0int]);
    assert(f[3 + 1int] == p[1int]);
    lemma_acq_params_frame(f, a);
}

/// Settles the answer to a power-down: the device often powers down before it answers, so
/// a failure to read or parse the answer counts as done.
pub fn power_down_outcome(r: Result<(), RWError>) -> (out: Result<(), RWError>)
    ensures
        r matches Err(RWError::ReadError(_)) ==> out is Ok,
        !(r matches Err(RWError::ReadError(_))) ==> out == r,
{
    match r {
        Err(RWError::ReadError(_)) => Ok(()),
        other => other,
    }
}

} // verus!
