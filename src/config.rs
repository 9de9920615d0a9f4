//! Configuration parameters and their codec: one id byte, then a payload whose shape the
//! id fixes.
use vstd::prelude::*;

use crate::error::{parse_error, Failure, ParseReason, ReadError};
use crate::frame::{bits_at, bool_at, fits, lemma_u32_in_frame, overrun, took, FrameReader, Get};
use crate::wire::{lemma_be32_of_bytes, push_u32, u32_bytes};

verus! {

/// How the module is mounted: the reference orientation and its rotation.
#[derive(Debug, Clone, Copy, PartialEq, Eq)]
pub enum MountingRef {
    Std0,
    XUp0,
    YUp0,
    Std90,
    Std180,
    Std270,
    ZDown0,
    XUp90,
    XUp180,
    XUp270,
    YUp90,
    YUp180,
    YUp270,
    ZDown90,
    ZDown180,
    ZDown270,
}

impl MountingRef {
    /// The code of the mounting reference on the wire.
    pub open spec fn code(self) -> u8 {
        match self {
            MountingRef::Std0 => 1,
            MountingRef::XUp0 => 2,
            MountingRef::YUp0 => 3,
            MountingRef::Std90 => 4,
            MountingRef::Std180 => 5,
            MountingRef::Std270 => 6,
            MountingRef::ZDown0 => 7,
            MountingRef::XUp90 => 8,
            MountingRef::XUp180 => 9,
            MountingRef::XUp270 => 10,
            MountingRef::YUp90 => 11,
            MountingRef::YUp180 => 12,
            MountingRef::YUp270 => 13,
            MountingRef::ZDown90 => 14,
            MountingRef::ZDown180 => 15,
            MountingRef::ZDown270 => 16,
        }
    }

    /// The mounting reference that `code` stands for, if any.
    pub open spec fn from_code(code: u8) -> Option<MountingRef> {
        if code == 1 {
            Some(MountingRef::Std0)
        } else if code == 2 {
            Some(MountingRef::XUp0)
        } else if code == 3 {
            Some(MountingRef::YUp0)
        } else if code == 4 {
            Some(MountingRef::Std90)
        } else if code == 5 {
            Some(MountingRef::Std180)
        } else if code == 6 {
            Some(MountingRef::Std270)
        } else if code == 7 {
            Some(MountingRef::ZDown0)
        } else if code == 8 {
            Some(MountingRef::XUp90)
        } else if code == 9 {
            Some(MountingRef::XUp180)
        } else if code == 10 {
            Some(MountingRef::XUp270)
        } else if code == 11 {
            Some(MountingRef::YUp90)
        } else if code == 12 {
            Some(MountingRef::YUp180)
        } else if code == 13 {
            Some(MountingRef::YUp270)
        } else if code == 14 {
            Some(MountingRef::ZDown90)
        } else if code == 15 {
            Some(MountingRef::ZDown180)
        } else if code == 16 {
            Some(MountingRef::ZDown270)
        } else {
            None
        }
    }

    /// The code of the mounting reference on the wire.
    pub fn discriminant(&self) -> (r: u8)
        ensures
            r == self.code(),
    {
        match self {
            MountingRef::Std0 => 1,
            MountingRef::XUp0 => 2,
            MountingRef::YUp0 => 3,
            MountingRef::Std90 => 4,
            MountingRef::Std180 => 5,
            MountingRef::Std270 => 6,
            MountingRef::ZDown0 => 7,
            MountingRef::XUp90 => 8,
            MountingRef::XUp180 => 9,
            MountingRef::XUp270 => 10,
            MountingRef::YUp90 => 11,
            MountingRef::YUp180 => 12,
            MountingRef::YUp270 => 13,
            MountingRef::ZDown90 => 14,
            MountingRef::ZDown180 => 15,
            MountingRef::ZDown270 => 16,
        }
    }
}

/// A baud rate of the serial link.
#[derive(Debug, Clone, Copy, PartialEq, Eq)]
pub enum Baud {
    B2400,
    B3600,
    B4800,
    B7200,
    B9600,
    B14400,
    B19200,
    B28800,
    B38400,
    B57600,
    B115200,
}

impl Baud {
    /// The code of the baud rate on the wire.
    pub open spec fn code(self) -> u8 {
        match self {
            Baud::B2400 => 4,
            Baud::B3600 => 5,
            Baud::B4800 => 6,
            Baud::B7200 => 7,
            Baud::B9600 => 8,
            Baud::B14400 => 9,
            Baud::B19200 => 10,
            Baud::B28800 => 11,
            Baud::B38400 => 12,
            Baud::B57600 => 13,
            Baud::B115200 => 14,
        }
    }

    /// The baud rate that `code` stands for, if any.
    pub open spec fn from_code(code: u8) -> Option<Baud> {
        if code == 4 {
            Some(Baud::B2400)
        } else if code == 5 {
            Some(Baud::B3600)
        } else if code == 6 {
            Some(Baud::B4800)
        } else if code == 7 {
            Some(Baud::B7200)
        } else if code == 8 {
            Some(Baud::B9600)
        } else if code == 9 {
            Some(Baud::B14400)
        } else if code == 10 {
            Some(Baud::B19200)
        } else if code == 11 {
            Some(Baud::B28800)
        } else if code == 12 {
            Some(Baud::B38400)
        } else if code == 13 {
            Some(Baud::B57600)
        } else if code == 14 {
            Some(Baud::B115200)
        } else {
            None
        }
    }

    /// The code of the baud rate on the wire.
    pub fn discriminant(&self) -> (r: u8)
        ensures
            r == self.code(),
    {
        match self {
            Baud::B2400 => 4,
            Baud::B3600 => 5,
            Baud::B4800 => 6,
            Baud::B7200 => 7,
            Baud::B9600 => 8,
            Baud::B14400 => 9,
            Baud::B19200 => 10,
            Baud::B28800 => 11,
            Baud::B38400 => 12,
            Baud::B57600 => 13,
            Baud::B115200 => 14,
        }
    }
}

/// The configuration parameters, by id.
#[derive(Debug, Clone, Copy, PartialEq, Eq)]
pub enum ConfigID {
    /// Declination angle, as the bits of an IEEE-754 single-precision float, in degrees.
    Declination,
    /// Whether heading is reported against true north rather than magnetic north.
    TrueNorth,
    /// Whether the device sends numbers big-endian.
    BigEndian,
    /// How the module is mounted.
    MountingRef,
    /// The number of points a user calibration takes.
    UserCalNumPoints,
    /// Whether calibration samples are taken automatically.
    UserCalAutoSampling,
    /// The baud rate of the serial link.
    BaudRate,
    /// Whether angles are reported in mils rather than degrees.
    MilOut,
    /// Whether heading, pitch and roll are output during calibration.
    HPRDuringCal,
    /// The index of the magnetometer coefficient set in use.
    MagCoeffSet,
    /// The index of the accelerometer coefficient set in use.
    AccelCoeffSet,
}

impl ConfigID {
    /// The id byte of the parameter.
    pub open spec fn id(self) -> u8 {
        match self {
            ConfigID::Declination => 1,
            ConfigID::TrueNorth => 2,
            ConfigID::BigEndian => 6,
            ConfigID::MountingRef => 10,
            ConfigID::UserCalNumPoints => 12,
            ConfigID::UserCalAutoSampling => 13,
            ConfigID::BaudRate => 14,
            ConfigID::MilOut => 15,
            ConfigID::HPRDuringCal => 16,
            ConfigID::MagCoeffSet => 18,
            ConfigID::AccelCoeffSet => 19,
        }
    }

    /// The id byte of the parameter.
    pub fn discriminant(&self) -> (r: u8)
        ensures
            r == self.id(),
    {
        match self {
            ConfigID::Declination => 1,
            ConfigID::TrueNorth => 2,
            ConfigID::BigEndian => 6,
            ConfigID::MountingRef => 10,
            ConfigID::UserCalNumPoints => 12,
            ConfigID::UserCalAutoSampling => 13,
            ConfigID::BaudRate => 14,
            ConfigID::MilOut => 15,
            ConfigID::HPRDuringCal => 16,
            ConfigID::MagCoeffSet => 18,
            ConfigID::AccelCoeffSet => 19,
        }
    }
}

/// A configuration parameter with its value.
#[derive(Debug, Clone, Copy, PartialEq, Eq)]
pub enum ConfigPair {
    /// Declination angle, as the bits of an IEEE-754 single-precision float, in degrees.
    Declination(u32),
    /// Whether heading is reported against true north rather than magnetic north.
    TrueNorth(bool),
    /// Whether the device sends numbers big-endian.
    BigEndian(bool),
    /// How the module is mounted.
    MountingRef(MountingRef),
    /// The number of points a user calibration takes.
    UserCalNumPoints(u32),
    /// Whether calibration samples are taken automatically.
    UserCalAutoSampling(bool),
    /// The baud rate of the serial link.
    BaudRate(Baud),
    /// Whether angles are reported in mils rather than degrees.
    MilOut(bool),
    /// Whether heading, pitch and roll are output during calibration.
    HPRDuringCal(bool),
    /// The index of the magnetometer coefficient set in use.
    MagCoeffSet(u32),
    /// The index of the accelerometer coefficient set in use.
    AccelCoeffSet(u32),
}

/// The byte of a boolean: 1 for true, 0 for false.
pub open spec fn bool_byte(b: bool) -> u8 {
    if b {
        1
    } else {
        0
    }
}

impl ConfigPair {
    /// The parameter that the pair sets.
    pub open spec fn config_id(self) -> ConfigID {
        match self {
            ConfigPair::Declination(_) => ConfigID::Declination,
            ConfigPair::TrueNorth(_) => ConfigID::TrueNorth,
            ConfigPair::BigEndian(_) => ConfigID::BigEndian,
            ConfigPair::MountingRef(_) => ConfigID::MountingRef,
            ConfigPair::UserCalNumPoints(_) => ConfigID::UserCalNumPoints,
            ConfigPair::UserCalAutoSampling(_) => ConfigID::UserCalAutoSampling,
            ConfigPair::BaudRate(_) => ConfigID::BaudRate,
            ConfigPair::MilOut(_) => ConfigID::MilOut,
            ConfigPair::HPRDuringCal(_) => ConfigID::HPRDuringCal,
            ConfigPair::MagCoeffSet(_) => ConfigID::MagCoeffSet,
            ConfigPair::AccelCoeffSet(_) => ConfigID::AccelCoeffSet,
        }
    }

    /// The payload bytes of the value.
    pub open spec fn value_bytes(self) -> Seq<u8> {
        match self {
            ConfigPair::Declination(v) => u32_bytes(v),
            ConfigPair::TrueNorth(v) => seq![bool_byte(v)],
            ConfigPair::BigEndian(v) => seq![bool_byte(v)],
            ConfigPair::MountingRef(v) => seq![v.code()],
            ConfigPair::UserCalNumPoints(v) => u32_bytes(v),
            ConfigPair::UserCalAutoSampling(v) => seq![bool_byte(v)],
            ConfigPair::BaudRate(v) => seq![v.code()],
            ConfigPair::MilOut(v) => seq![bool_byte(v)],
            ConfigPair::HPRDuringCal(v) => seq![bool_byte(v)],
            ConfigPair::MagCoeffSet(v) => u32_bytes(v),
            ConfigPair::AccelCoeffSet(v) => u32_bytes(v),
        }
    }

    /// The encoding of the pair: its id byte, then its value.
    pub open spec fn encoding(self) -> Seq<u8> {
        seq![self.config_id().id()] + self.value_bytes()
    }

    /// The id byte of the pair.
    pub fn discriminant(&self) -> (r: u8)
        ensures
            r == self.config_id().id(),
    {
        match self {
            ConfigPair::Declination(_) => 1,
            ConfigPair::TrueNorth(_) => 2,
            ConfigPair::BigEndian(_) => 6,
            ConfigPair::MountingRef(_) => 10,
            ConfigPair::UserCalNumPoints(_) => 12,
            ConfigPair::UserCalAutoSampling(_) => 13,
            ConfigPair::BaudRate(_) => 14,
            ConfigPair::MilOut(_) => 15,
            ConfigPair::HPRDuringCal(_) => 16,
            ConfigPair::MagCoeffSet(_) => 18,
            ConfigPair::AccelCoeffSet(_) => 19,
        }
    }

    /// Encodes the pair: its id byte, then its value (a float or count as four big-endian
    /// bytes, a boolean as 0 or 1, a mounting reference or baud rate as its code).
    pub fn to_bytes(&self) -> (r: Vec<u8>)
        ensures
            r@ == self.encoding(),
    {
        let mut out: Vec<u8> = Vec::new();
        out.push(self.discriminant());
        match self {
            ConfigPair::Declination(v) => {
                push_u32(&mut out, *v);
            },
            ConfigPair::TrueNorth(v) => {
                out.push(if *v {
                    1
                } else {
                    0
                });
            },
            ConfigPair::BigEndian(v) => {
                out.push(if *v {
                    1
                } else {
                    0
                });
            },
            ConfigPair::MountingRef(v) => {
                out.push(v.discriminant());
            },
            ConfigPair::UserCalNumPoints(v) => {
                push_u32(&mut out, *v);
            },
            ConfigPair::UserCalAutoSampling(v) => {
                out.push(if *v {
                    1
                } else {
                    0
                });
            },
            ConfigPair::BaudRate(v) => {
                out.push(v.discriminant());
            },
            ConfigPair::MilOut(v) => {
                out.push(if *v {
                    1
                } else {
                    0
                });
            },
            ConfigPair::HPRDuringCal(v) => {
                out.push(if *v {
                    1
                } else {
                    0
                });
            },
            ConfigPair::MagCoeffSet(v) => {
                push_u32(&mut out, *v);
            },
            ConfigPair::AccelCoeffSet(v) => {
                push_u32(&mut out, *v);
            },
        }
        assert(out@ =~= self.encoding());
        out
    }
}

/// The value of parameter `id` at `p`, with the position after it.
pub open spec fn config_value(f: Seq<u8>, p: int, id: ConfigID) -> Result<(ConfigPair, int), Failure> {
    match id {
        ConfigID::Declination => match bits_at(f, p) {
            Ok((v, q)) => Ok((ConfigPair::Declination(v), q)),
            Err(e) => Err(e),
        },
        ConfigID::TrueNorth => match bool_at(f, p) {
            Ok((v, q)) => Ok((ConfigPair::TrueNorth(v), q)),
            Err(e) => Err(e),
        },
        ConfigID::BigEndian => match bool_at(f, p) {
            Ok((v, q)) => Ok((ConfigPair::BigEndian(v), q)),
            Err(e) => Err(e),
        },
        ConfigID::MountingRef => match mounting_ref_at(f, p) {
            Ok((v, q)) => Ok((ConfigPair::MountingRef(v), q)),
            Err(e) => Err(e),
        },
        ConfigID::UserCalNumPoints => match bits_at(f, p) {
            Ok((v, q)) => Ok((ConfigPair::UserCalNumPoints(v), q)),
            Err(e) => Err(e),
        },
        ConfigID::UserCalAutoSampling => match bool_at(f, p) {
            Ok((v, q)) => Ok((ConfigPair::UserCalAutoSampling(v), q)),
            Err(e) => Err(e),
        },
        ConfigID::BaudRate => match baud_at(f, p) {
            Ok((v, q)) => Ok((ConfigPair::BaudRate(v), q)),
            Err(e) => Err(e),
        },
        ConfigID::MilOut => match bool_at(f, p) {
            Ok((v, q)) => Ok((ConfigPair::MilOut(v), q)),
            Err(e) => Err(e),
        },
        ConfigID::HPRDuringCal => match bool_at(f, p) {
            Ok((v, q)) => Ok((ConfigPair::HPRDuringCal(v), q)),
            Err(e) => Err(e),
        },
        ConfigID::MagCoeffSet => match bits_at(f, p) {
            Ok((v, q)) => Ok((ConfigPair::MagCoeffSet(v), q)),
            Err(e) => Err(e),
        },
        ConfigID::AccelCoeffSet => match bits_at(f, p) {
            Ok((v, q)) => Ok((ConfigPair::AccelCoeffSet(v), q)),
            Err(e) => Err(e),
        },
    }
}

/// A mounting reference code at `p`.
pub open spec fn mounting_ref_at(f: Seq<u8>, p: int) -> Result<(MountingRef, int), Failure> {
    if !fits(f, p, 1) {
        Err(overrun(f, p, 1))
    } else {
        match MountingRef::from_code(f[p]) {
            Some(m) => Ok((m, p + 1)),
            None => Err(Failure::Parse(ParseReason::InvalidMountingRef)),
        }
    }
}

/// A baud rate code at `p`.
pub open spec fn baud_at(f: Seq<u8>, p: int) -> Result<(Baud, int), Failure> {
    if !fits(f, p, 1) {
        Err(overrun(f, p, 1))
    } else {
        match Baud::from_code(f[p]) {
            Some(b) => Ok((b, p + 1)),
            None => Err(Failure::Parse(ParseReason::InvalidBaud)),
        }
    }
}

impl<'a> Get<MountingRef> for FrameReader<'a> {
    fn get(&mut self) -> (r: Result<MountingRef, ReadError>)
        ensures
            took(*old(self), *final(self), r, mounting_ref_at(old(self).bytes(), old(self).position())),
    {
        let code = match Get::<u8>::get(self) {
            Ok(c) => c,
            Err(e) => return Err(e),
        };
        match code {
            1 => Ok(MountingRef::Std0),
            2 => Ok(MountingRef::XUp0),
            3 => Ok(MountingRef::YUp0),
            4 => Ok(MountingRef::Std90),
            5 => Ok(MountingRef::Std180),
            6 => Ok(MountingRef::Std270),
            7 => Ok(MountingRef::ZDown0),
            8 => Ok(MountingRef::XUp90),
            9 => Ok(MountingRef::XUp180),
            10 => Ok(MountingRef::XUp270),
            11 => Ok(MountingRef::YUp90),
            12 => Ok(MountingRef::YUp180),
            13 => Ok(MountingRef::YUp270),
            14 => Ok(MountingRef::ZDown90),
            15 => Ok(MountingRef::ZDown180),
            16 => Ok(MountingRef::ZDown270),
            _ => Err(parse_error(ParseReason::InvalidMountingRef)),
        }
    }
}

impl<'a> Get<Baud> for FrameReader<'a> {
    fn get(&mut self) -> (r: Result<Baud, ReadError>)
        ensures
            took(*old(self), *final(self), r, baud_at(old(self).bytes(), old(self).position())),
    {
        let code = match Get::<u8>::get(self) {
            Ok(c) => c,
            Err(e) => return Err(e),
        };
        match code {
            4 => Ok(Baud::B2400),
            5 => Ok(Baud::B3600),
            6 => Ok(Baud::B4800),
            7 => Ok(Baud::B7200),
            8 => Ok(Baud::B9600),
            9 => Ok(Baud::B14400),
            10 => Ok(Baud::B19200),
            11 => Ok(Baud::B28800),
            12 => Ok(Baud::B38400),
            13 => Ok(Baud::B57600),
            14 => Ok(Baud::B115200),
            _ => Err(parse_error(ParseReason::InvalidBaud)),
        }
    }
}

impl<'a> FrameReader<'a> {
    /// Reads the value of parameter `id`, in the shape that the id fixes.
    pub fn get_config_value(&mut self, id: ConfigID) -> (r: Result<ConfigPair, ReadError>)
        ensures
            took(*old(self), *final(self), r, config_value(old(self).bytes(), old(self).position(), id)),
    {
        match id {
            ConfigID::Declination => match Get::<u32>::get(self) {
                Ok(v) => Ok(ConfigPair::Declination(v)),
                Err(e) => Err(e),
            },
            ConfigID::TrueNorth => match Get::<bool>::get(self) {
                Ok(v) => Ok(ConfigPair::TrueNorth(v)),
                Err(e) => Err(e),
            },
            ConfigID::BigEndian => match Get::<bool>::get(self) {
                Ok(v) => Ok(ConfigPair::BigEndian(v)),
                Err(e) => Err(e),
            },
            ConfigID::MountingRef => match Get::<MountingRef>::get(self) {
                Ok(v) => Ok(ConfigPair::MountingRef(v)),
                Err(e) => Err(e),
            },
            ConfigID::UserCalNumPoints => match Get::<u32>::get(self) {
                Ok(v) => Ok(ConfigPair::UserCalNumPoints(v)),
                Err(e) => Err(e),
            },
            ConfigID::UserCalAutoSampling => match Get::<bool>::get(self) {
                Ok(v) => Ok(ConfigPair::UserCalAutoSampling(v)),
                Err(e) => Err(e),
            },
            ConfigID::BaudRate => match Get::<Baud>::get(self) {
                Ok(v) => Ok(ConfigPair::BaudRate(v)),
                Err(e) => Err(e),
            },
            ConfigID::MilOut => match Get::<bool>::get(self) {
                Ok(v) => Ok(ConfigPair::MilOut(v)),
                Err(e) => Err(e),
            },
            ConfigID::HPRDuringCal => match Get::<bool>::get(self) {
                Ok(v) => Ok(ConfigPair::HPRDuringCal(v)),
                Err(e) => Err(e),
            },
            ConfigID::MagCoeffSet => match Get::<u32>::get(self) {
                Ok(v) => Ok(ConfigPair::MagCoeffSet(v)),
                Err(e) => Err(e),
            },
            ConfigID::AccelCoeffSet => match Get::<u32>::get(self) {
                Ok(v) => Ok(ConfigPair::AccelCoeffSet(v)),
                Err(e) => Err(e),
            },
        }
    }
}

/// Codec round trip: where the value bytes of a pair stand in a frame, clear of its
/// checksum field, decoding them as the pair's parameter gives the pair back.
pub proof fn lemma_config_round_trip(pair: ConfigPair, f: Seq<u8>, p: int)
    requires
        0 <= p,
        p + pair.value_bytes().len() + 2 <= f.len(),
        f.subrange(p, p + pair.value_bytes().len()) == pair.value_bytes(),
    ensures
        config_value(f, p, pair.config_id()) == Ok::<(ConfigPair, int), Failure>(
            (pair, p + pair.value_bytes().len()),
        ),
{
    let w = pair.value_bytes();
    match pair {
        ConfigPair::Declination(v) => lemma_be32_of_bytes(v),
        ConfigPair::UserCalNumPoints(v) => lemma_be32_of_bytes(v),
        ConfigPair::MagCoeffSet(v) => lemma_be32_of_bytes(v),
        ConfigPair::AccelCoeffSet(v) => lemma_be32_of_bytes(v),
        _ => {},
    }
    assert(forall|i: int| 0 <= i < w.len() ==> f[p + i] == #[trigger] w[i]) by {
        assert forall|i: int| 0 <= i < w.len() implies f[p + i] == #[trigger] w[i] by {
            assert(f.subrange(p, p + w.len())[i] == f[p + i]);
        }
    }
    let q = p + w.len();
    match pair {
        ConfigPair::Declination(v) => {
            lemma_be32_of_bytes(v);
            lemma_u32_in_frame(v, f, p);
        },
        ConfigPair::UserCalNumPoints(v) => {
            lemma_be32_of_bytes(v);
            lemma_u32_in_frame(v, f, p);
        },
        ConfigPair::MagCoeffSet(v) => {
            lemma_be32_of_bytes(v);
            lemma_u32_in_frame(v, f, p);
        },
        ConfigPair::AccelCoeffSet(v) => {
            lemma_be32_of_bytes(v);
            lemma_u32_in_frame(v, f, p);
        },
        ConfigPair::MountingRef(m) => {
            assert(w[0] == m.code());
            assert(f[p] == m.code());
        },
        ConfigPair::BaudRate(b) => {
            assert(w[0] == b.code());
            assert(f[p] == b.code());
        },
        _ => {
            assert(f[p] == w[0]);
        },
    }
}

/// A mounting reference byte outside 1..=16 fails to decode.
pub proof fn lemma_mounting_ref_out_of_range(f: Seq<u8>, p: int)
    requires
        0 <= p,
        p + 3 <= f.len(),
        !(1 <= f[p] <= 16),
    ensures
        config_value(f, p, ConfigID::MountingRef) == Err::<(ConfigPair, int), Failure>(
            Failure::Parse(ParseReason::InvalidMountingRef),
        ),
{
}

/// A baud rate byte outside 4..=14 fails to decode.
pub proof fn lemma_baud_out_of_range(f: Seq<u8>, p: int)
    requires
        0 <= p,
        p + 3 <= f.len(),
        !(4 <= f[p] <= 14),
    ensures
        config_value(f, p, ConfigID::BaudRate) == Err::<(ConfigPair, int), Failure>(
            Failure::Parse(ParseReason::InvalidBaud),
        ),
{
}

} // verus!
