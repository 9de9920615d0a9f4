//! Measurement channels and the data record that reports them.
use vstd::prelude::*;

use crate::error::{fails_with, parse_error, Failure, ParseReason, ReadError};
use crate::frame::{bits_at, bool_at, fits, overrun, took, FrameReader, Get};

verus! {

/// A measurement channel. Its id is what the device uses on the wire.
#[derive(Debug, Clone, Copy, PartialEq, Eq)]
pub enum DataID {
    /// Heading, in degrees.
    Heading,
    /// Pitch, in degrees.
    Pitch,
    /// Roll, in degrees.
    Roll,
    /// Temperature, in degrees Celsius.
    Temperature,
    /// Whether magnetic distortion is detected.
    Distortion,
    /// Whether the module is calibrated.
    CalStatus,
    /// Acceleration along X, in g.
    AccelX,
    /// Acceleration along Y, in g.
    AccelY,
    /// Acceleration along Z, in g.
    AccelZ,
    /// Magnetic field along X, in microtesla.
    MagX,
    /// Magnetic field along Y, in microtesla.
    MagY,
    /// Magnetic field along Z, in microtesla.
    MagZ,
    /// Magnetic accuracy estimate.
    MagAccuracy,
}

impl DataID {
    /// The id of the channel on the wire.
    pub open spec fn id(self) -> u8 {
        match self {
            DataID::Heading => 5,
            DataID::Pitch => 24,
            DataID::Roll => 25,
            DataID::Temperature => 7,
            DataID::Distortion => 8,
            DataID::CalStatus => 9,
            DataID::AccelX => 21,
            DataID::AccelY => 22,
            DataID::AccelZ => 23,
            DataID::MagX => 27,
            DataID::MagY => 28,
            DataID::MagZ => 29,
            DataID::MagAccuracy => 88,
        }
    }

    /// The id of the channel on the wire.
    pub fn discriminant(&self) -> (r: u8)
        ensures
            r == self.id(),
    {
        match self {
            DataID::Heading => 5,
            DataID::Pitch => 24,
            DataID::Roll => 25,
            DataID::Temperature => 7,
            DataID::Distortion => 8,
            DataID::CalStatus => 9,
            DataID::AccelX => 21,
            DataID::AccelY => 22,
            DataID::AccelZ => 23,
            DataID::MagX => 27,
            DataID::MagY => 28,
            DataID::MagZ => 29,
            DataID::MagAccuracy => 88,
        }
    }

    /// The channel that `id` names, if any.
    pub open spec fn from_id(id: u8) -> Option<DataID> {
        if id == 5 {
            Some(DataID::Heading)
        } else if id == 24 {
            Some(DataID::Pitch)
        } else if id == 25 {
            Some(DataID::Roll)
        } else if id == 7 {
            Some(DataID::Temperature)
        } else if id == 8 {
            Some(DataID::Distortion)
        } else if id == 9 {
            Some(DataID::CalStatus)
        } else if id == 21 {
            Some(DataID::AccelX)
        } else if id == 22 {
            Some(DataID::AccelY)
        } else if id == 23 {
            Some(DataID::AccelZ)
        } else if id == 27 {
            Some(DataID::MagX)
        } else if id == 28 {
            Some(DataID::MagY)
        } else if id == 29 {
            Some(DataID::MagZ)
        } else if id == 88 {
            Some(DataID::MagAccuracy)
        } else {
            None
        }
    }

    /// The channel that `value` names; any other id is a parse error, and id 79, which the
    /// device sends when no channel list was configured, says so.
    pub fn try_from(value: u8) -> (r: Result<DataID, ReadError>)
        ensures
            match DataID::from_id(value) {
                Some(c) => r == Ok::<DataID, ReadError>(c),
                None => fails_with(r, Failure::Parse(ParseReason::UnknownDataId(value))),
            },
    {
        match value {
            5 => Ok(DataID::Heading),
            24 => Ok(DataID::Pitch),
            25 => Ok(DataID::Roll),
            7 => Ok(DataID::Temperature),
            8 => Ok(DataID::Distortion),
            9 => Ok(DataID::CalStatus),
            21 => Ok(DataID::AccelX),
            22 => Ok(DataID::AccelY),
            23 => Ok(DataID::AccelZ),
            27 => Ok(DataID::MagX),
            28 => Ok(DataID::MagY),
            29 => Ok(DataID::MagZ),
            88 => Ok(DataID::MagAccuracy),
            _ => Err(parse_error(ParseReason::UnknownDataId(value))),
        }
    }

    /// Whether the channel reports a flag rather than a number.
    pub open spec fn is_flag(self) -> bool {
        self == DataID::Distortion || self == DataID::CalStatus
    }
}

/// One record of measurements: a slot per channel, filled for the channels that the record
/// reports. Numbers are the bits of IEEE-754 single-precision floats.
#[derive(Debug, Clone, Copy, PartialEq, Eq)]
pub struct Data {
    /// Heading, in degrees.
    pub heading: Option<u32>,
    /// Pitch, in degrees.
    pub pitch: Option<u32>,
    /// Roll, in degrees.
    pub roll: Option<u32>,
    /// Temperature, in degrees Celsius.
    pub temperature: Option<u32>,
    /// Whether magnetic distortion is detected.
    pub distortion: Option<bool>,
    /// Whether the module is calibrated.
    pub cal_status: Option<bool>,
    /// Acceleration along X, in g.
    pub accel_x: Option<u32>,
    /// Acceleration along Y, in g.
    pub accel_y: Option<u32>,
    /// Acceleration along Z, in g.
    pub accel_z: Option<u32>,
    /// Magnetic field along X, in microtesla.
    pub mag_x: Option<u32>,
    /// Magnetic field along Y, in microtesla.
    pub mag_y: Option<u32>,
    /// Magnetic field along Z, in microtesla.
    pub mag_z: Option<u32>,
    /// Magnetic accuracy estimate.
    pub mag_accuracy: Option<u32>,
}

impl Data {
    /// The record with every slot empty.
    pub open spec fn none() -> Data {
        Data {
            heading: None,
            pitch: None,
            roll: None,
            temperature: None,
            distortion: None,
            cal_status: None,
            accel_x: None,
            accel_y: None,
            accel_z: None,
            mag_x: None,
            mag_y: None,
            mag_z: None,
            mag_accuracy: None,
        }
    }

    /// The record with the number `v` in the slot of channel `c`.
    pub open spec fn with_number(self, c: DataID, v: u32) -> Data {
        match c {
            DataID::Heading => Data { heading: Some(v), ..self },
            DataID::Pitch => Data { pitch: Some(v), ..self },
            DataID::Roll => Data { roll: Some(v), ..self },
            DataID::Temperature => Data { temperature: Some(v), ..self },
            DataID::AccelX => Data { accel_x: Some(v), ..self },
            DataID::AccelY => Data { accel_y: Some(v), ..self },
            DataID::AccelZ => Data { accel_z: Some(v), ..self },
            DataID::MagX => Data { mag_x: Some(v), ..self },
            DataID::MagY => Data { mag_y: Some(v), ..self },
            DataID::MagZ => Data { mag_z: Some(v), ..self },
            DataID::MagAccuracy => Data { mag_accuracy: Some(v), ..self },
            _ => self,
        }
    }

    /// The record with the flag `b` in the slot of channel `c`.
    pub open spec fn with_flag(self, c: DataID, b: bool) -> Data {
        match c {
            DataID::Distortion => Data { distortion: Some(b), ..self },
            DataID::CalStatus => Data { cal_status: Some(b), ..self },
            _ => self,
        }
    }

    /// A record with every slot empty.
    pub fn empty() -> (r: Data)
        ensures
            r == Data::none(),
    {
        Data {
            heading: None,
            pitch: None,
            roll: None,
            temperature: None,
            distortion: None,
            cal_status: None,
            accel_x: None,
            accel_y: None,
            accel_z: None,
            mag_x: None,
            mag_y: None,
            mag_z: None,
            mag_accuracy: None,
        }
    }
}

/// The value of channel `c` at `p` stored into `d`.
pub open spec fn channel_value(f: Seq<u8>, p: int, c: DataID, d: Data) -> Result<(Data, int), Failure> {
    if c.is_flag() {
        match bool_at(f, p) {
            Ok((b, q)) => Ok((d.with_flag(c, b), q)),
            Err(e) => Err(e),
        }
    } else {
        match bits_at(f, p) {
            Ok((v, q)) => Ok((d.with_number(c, v), q)),
            Err(e) => Err(e),
        }
    }
}

/// One entry at `p` (a channel id, then the value that channel fixes), stored into `d`.
pub open spec fn entry(f: Seq<u8>, p: int, d: Data) -> Result<(Data, int), Failure> {
    if !fits(f, p, 1) {
        Err(overrun(f, p, 1))
    } else {
        match DataID::from_id(f[p]) {
            None => Err(Failure::Parse(ParseReason::UnknownDataId(f[p]))),
            Some(c) => channel_value(f, p + 1, c, d),
        }
    }
}

/// The next `n` entries from `p`, stored into `d` in order.
pub open spec fn entries(f: Seq<u8>, p: int, n: nat, d: Data) -> Result<(Data, int), Failure>
    decreases n,
{
    if n == 0 {
        Ok((d, p))
    } else {
        match entry(f, p, d) {
            Ok((d2, q)) => entries(f, q, (n - 1) as nat, d2),
            Err(e) => Err(e),
        }
    }
}

/// A data record at `p`: a count, then that many entries.
pub open spec fn data_record(f: Seq<u8>, p: int) -> Result<(Data, int), Failure> {
    if !fits(f, p, 1) {
        Err(overrun(f, p, 1))
    } else {
        entries(f, p + 1, f[p] as nat, Data::none())
    }
}

impl<'a> FrameReader<'a> {
    /// Reads the value of channel `c` into its slot of `d`.
    fn get_channel(&mut self, c: DataID, d: &mut Data) -> (r: Result<(), ReadError>)
        ensures
            final(self).bytes() == old(self).bytes(),
            match channel_value(old(self).bytes(), old(self).position(), c, *old(d)) {
                Ok((d2, q)) => r is Ok && *final(d) == d2 && final(self).position() == q,
                Err(e) => fails_with(r, e),
            },
    {
        match c {
            DataID::Heading => match Get::<u32>::get(self) {
                Ok(v) => {
                    d.heading = Some(v);
                    Ok(())
                },
                Err(e) => Err(e),
            },
            DataID::Pitch => match Get::<u32>::get(self) {
                Ok(v) => {
                    d.pitch = Some(v);
                    Ok(())
                },
                Err(e) => Err(e),
            },
            DataID::Roll => match Get::<u32>::get(self) {
                Ok(v) => {
                    d.roll = Some(v);
                    Ok(())
                },
                Err(e) => Err(e),
            },
            DataID::Temperature => match Get::<u32>::get(self) {
                Ok(v) => {
                    d.temperature = Some(v);
                    Ok(())
                },
                Err(e) => Err(e),
            },
            DataID::Distortion => match Get::<bool>::get(self) {
                Ok(b) => {
                    d.distortion = Some(b);
                    Ok(())
                },
                Err(e) => Err(e),
            },
            DataID::CalStatus => match Get::<bool>::get(self) {
                Ok(b) => {
                    d.cal_status = Some(b);
                    Ok(())
                },
                Err(e) => Err(e),
            },
            DataID::AccelX => match Get::<u32>::get(self) {
                Ok(v) => {
                    d.accel_x = Some(v);
                    Ok(())
                },
                Err(e) => Err(e),
            },
            DataID::AccelY => match Get::<u32>::get(self) {
                Ok(v) => {
                    d.accel_y = Some(v);
                    Ok(())
                },
                Err(e) => Err(e),
            },
            DataID::AccelZ => match Get::<u32>::get(self) {
                Ok(v) => {
                    d.accel_z = Some(v);
                    Ok(())
                },
                Err(e) => Err(e),
            },
            DataID::MagX => match Get::<u32>::get(self) {
                Ok(v) => {
                    d.mag_x = Some(v);
                    Ok(())
                },
                Err(e) => Err(e),
            },
            DataID::MagY => match Get::<u32>::get(self) {
                Ok(v) => {
                    d.mag_y = Some(v);
                    Ok(())
                },
                Err(e) => Err(e),
            },
            DataID::MagZ => match Get::<u32>::get(self) {
                Ok(v) => {
                    d.mag_z = Some(v);
                    Ok(())
                },
                Err(e) => Err(e),
            },
            DataID::MagAccuracy => match Get::<u32>::get(self) {
                Ok(v) => {
                    d.mag_accuracy = Some(v);
                    Ok(())
                },
                Err(e) => Err(e),
            },
        }
    }
}

impl<'a> FrameReader<'a> {
    /// Reads one entry of a data record into `d`.
    fn get_entry(&mut self, d: &mut Data) -> (r: Result<(), ReadError>)
        ensures
            final(self).bytes() == old(self).bytes(),
            match entry(old(self).bytes(), old(self).position(), *old(d)) {
                Ok((d2, q)) => r is Ok && *final(d) == d2 && final(self).position() == q && q + 2
                    <= final(self).bytes().len(),
                Err(e) => fails_with(r, e),
            },
    {
        let data_id = match Get::<u8>::get(self) {
            Ok(b) => b,
            Err(e) => return Err(e),
        };
        let channel = match DataID::try_from(data_id) {
            Ok(c) => c,
            Err(e) => return Err(e),
        };
        self.get_channel(channel, d)
    }
}

impl<'a> Get<Data> for FrameReader<'a> {
    /// Reads a data record: a count, then for each entry a channel id and the value whose
    /// width that channel fixes, into the channel's slot.
    fn get(&mut self) -> (r: Result<Data, ReadError>)
        ensures
            took(*old(self), *final(self), r, data_record(old(self).bytes(), old(self).position())),
    {
        let ghost f = self.bytes();
        let id_count = match Get::<u8>::get(self) {
            Ok(n) => n,
            Err(e) => return Err(e),
        };
        let mut data = Data::empty();
        let mut i: u8 = 0;
        while i < id_count
            invariant
                self.bytes() == f,
                old(self).bytes() == f,
                self.position() + 2 <= f.len(),
                i <= id_count,
                data_record(f, old(self).position()) == entries(
                    f,
                    self.position(),
                    (id_count - i) as nat,
                    data,
                ),
            decreases id_count - i,
        {
            match self.get_entry(&mut data) {
                Ok(()) => {},
                Err(e) => return Err(e),
            }
            i = i + 1;
        }
        Ok(data)
    }
}

} // verus!
