//! User calibration: the calibration geometries, what the device answers while sampling,
//! and the session that tracks a calibration from start to score.
use vstd::prelude::*;

use crate::command::Command;
use crate::device::{
    cal_sample, response, start_cal_response, take_user_cal_sample_reserved_response, Request,
};
use crate::error::{outcome, Failure, RWError, ReadError};
use crate::frame::{
    bits_at, frame_bytes, lemma_frame_layout, lemma_u32_in_frame, lemma_u32_in_payload, took,
    FrameReader, Get,
};
use crate::wire::{lemma_be32_of_bytes, u32_bytes};

verus! {

/// Type of calibration to use when calibrating the device.
#[derive(Debug, Clone, Copy, PartialEq, Eq)]
pub enum CalOption {
    /// Recommended when more than 30 degrees of pitch is possible.
    FullRange,
    /// Recommended when the available tilt range is limited to 5 degrees or less.
    TwoDimensional,
    /// Recalibrates the hard-iron offset only.
    HardIronOnly,
    /// Recommended when between 5 and 30 degrees of tilt is possible.
    LimitedTilt,
    /// Calibrates the accelerometer only.
    AccelOnly,
    /// Calibrates the magnetometer and the accelerometer together.
    MagAndAccel,
}

impl CalOption {
    /// The code of the geometry, sent as the payload of a calibration start.
    pub open spec fn code(self) -> u32 {
        match self {
            CalOption::FullRange => 10,
            CalOption::TwoDimensional => 20,
            CalOption::HardIronOnly => 30,
            CalOption::LimitedTilt => 40,
            CalOption::AccelOnly => 100,
            CalOption::MagAndAccel => 110,
        }
    }

    /// The code of the geometry, sent as the payload of a calibration start.
    pub fn discriminant(&self) -> (r: u32)
        ensures
            r == self.code(),
    {
        match self {
            CalOption::FullRange => 10,
            CalOption::TwoDimensional => 20,
            CalOption::HardIronOnly => 30,
            CalOption::LimitedTilt => 40,
            CalOption::AccelOnly => 100,
            CalOption::MagAndAccel => 110,
        }
    }
}

impl Default for CalOption {
    fn default() -> (r: CalOption)
        ensures
            r == CalOption::FullRange,
    {
        CalOption::FullRange
    }
}

/// The score of a finished calibration. Each score is the bits of an IEEE-754
/// single-precision float.
#[derive(Debug, Clone, Copy, PartialEq, Eq)]
pub struct CalScore {
    /// Quality of the magnetometer calibration.
    pub mag_cal_score: u32,
    /// Reserved by the device maker.
    pub reserved: u32,
    /// Quality of the accelerometer calibration.
    pub accel_cal_score: u32,
    /// Whether the sample points were well distributed; should be 0.
    pub distribution_error: u32,
    /// Whether the module was tilted enough; should be 0.
    pub tilt_error: u32,
    /// Half the pitch range of the sample points, in degrees.
    pub tilt_range: u32,
}

/// What the device answers to a calibration sample, the reserved field of the score
/// included.
#[derive(Debug, Clone, Copy, PartialEq, Eq)]
pub enum UserCalResponseReserved {
    /// The score, sent upon the final sample point.
    UserCalScore(CalScore),
    /// The number of points sampled so far, 0 to 32.
    SampleCount(u32),
}

/// What the device answers to a calibration sample.
#[derive(Debug, Clone, Copy, PartialEq, Eq)]
pub enum UserCalResponse {
    /// The score, sent upon the final sample point (bits of IEEE-754 single-precision
    /// floats).
    UserCalScore {
        mag_cal_score: u32,
        accel_cal_score: u32,
        distribution_error: u32,
        tilt_error: u32,
        tilt_range: u32,
    },
    /// The number of points sampled so far, 0 to 32.
    SampleCount(u32),
}

impl UserCalResponse {
    /// The answer without the reserved field of the score.
    pub open spec fn without_reserved(r: UserCalResponseReserved) -> UserCalResponse {
        match r {
            UserCalResponseReserved::SampleCount(c) => UserCalResponse::SampleCount(c),
            UserCalResponseReserved::UserCalScore(s) => UserCalResponse::UserCalScore {
                mag_cal_score: s.mag_cal_score,
                accel_cal_score: s.accel_cal_score,
                distribution_error: s.distribution_error,
                tilt_error: s.tilt_error,
                tilt_range: s.tilt_range,
            },
        }
    }

    /// The answer without the reserved field of the score.
    pub fn from_reserved(r: UserCalResponseReserved) -> (out: UserCalResponse)
        ensures
            out == UserCalResponse::without_reserved(r),
    {
        match r {
            UserCalResponseReserved::SampleCount(c) => UserCalResponse::SampleCount(c),
            UserCalResponseReserved::UserCalScore(s) => UserCalResponse::UserCalScore {
                mag_cal_score: s.mag_cal_score,
                accel_cal_score: s.accel_cal_score,
                distribution_error: s.distribution_error,
                tilt_error: s.tilt_error,
                tilt_range: s.tilt_range,
            },
        }
    }
}

/// Six scores at `p`, in wire order.
pub open spec fn cal_score_at(f: Seq<u8>, p: int) -> Result<(CalScore, int), Failure> {
    match bits_at(f, p) {
        Err(e) => Err(e),
        Ok((a, q1)) => match bits_at(f, q1) {
            Err(e) => Err(e),
            Ok((b, q2)) => match bits_at(f, q2) {
                Err(e) => Err(e),
                Ok((c, q3)) => match bits_at(f, q3) {
                    Err(e) => Err(e),
                    Ok((d, q4)) => match bits_at(f, q4) {
                        Err(e) => Err(e),
                        Ok((e5, q5)) => match bits_at(f, q5) {
                            Err(e) => Err(e),
                            Ok((g, q6)) => Ok(
                                (
                                    CalScore {
                                        mag_cal_score: a,
                                        reserved: b,
                                        accel_cal_score: c,
                                        distribution_error: d,
                                        tilt_error: e5,
                                        tilt_range: g,
                                    },
                                    q6,
                                ),
                            ),
                        },
                    },
                },
            },
        },
    }
}

impl<'a> Get<CalScore> for FrameReader<'a> {
    fn get(&mut self) -> (r: Result<CalScore, ReadError>)
        ensures
            took(*old(self), *final(self), r, cal_score_at(old(self).bytes(), old(self).position())),
    {
        let mag_cal_score = match Get::<u32>::get(self) {
            Ok(v) => v,
            Err(e) => return Err(e),
        };
        let reserved = match Get::<u32>::get(self) {
            Ok(v) => v,
            Err(e) => return Err(e),
        };
        let accel_cal_score = match Get::<u32>::get(self) {
            Ok(v) => v,
            Err(e) => return Err(e),
        };
        let distribution_error = match Get::<u32>::get(self) {
            Ok(v) => v,
            Err(e) => return Err(e),
        };
        let tilt_error = match Get::<u32>::get(self) {
            Ok(v) => v,
            Err(e) => return Err(e),
        };
        let tilt_range = match Get::<u32>::get(self) {
            Ok(v) => v,
            Err(e) => return Err(e),
        };
        Ok(
            CalScore {
                mag_cal_score,
                reserved,
                accel_cal_score,
                distribution_error,
                tilt_error,
                tilt_range,
            },
        )
    }
}

/// The payload bytes of a score, in wire order.
pub open spec fn score_bytes(s: CalScore) -> Seq<u8> {
    u32_bytes(s.mag_cal_score) + u32_bytes(s.reserved) + u32_bytes(s.accel_cal_score) + u32_bytes(
        s.distribution_error,
    ) + u32_bytes(s.tilt_error) + u32_bytes(s.tilt_range)
}

/// Counts come through as the device sends them: a sample-count answer carrying `n`
/// decodes to `n`, whether it answers a calibration start or a sample.
pub proof fn lemma_sample_count_answer(n: u32)
    ensures
        cal_sample(frame_bytes(Command::UserCalSampleCount.id(), u32_bytes(n)))
            == Ok::<UserCalResponseReserved, Failure>(UserCalResponseReserved::SampleCount(n)),
        response(
            frame_bytes(Command::UserCalSampleCount.id(), u32_bytes(n)),
            Command::UserCalSampleCount,
            bits_at(frame_bytes(Command::UserCalSampleCount.id(), u32_bytes(n)), 3),
        ) == Ok::<u32, Failure>(n),
{
    let f = frame_bytes(Command::UserCalSampleCount.id(), u32_bytes(n));
    lemma_be32_of_bytes(n);
    lemma_frame_layout(Command::UserCalSampleCount.id(), u32_bytes(n));
    lemma_u32_in_frame(n, f, 3);
}

/// Where six four-byte words stand in their concatenation.
proof fn lemma_six_words(a: Seq<u8>, b: Seq<u8>, c: Seq<u8>, d: Seq<u8>, e: Seq<u8>, g: Seq<u8>)
    requires
        a.len() == 4 && b.len() == 4 && c.len() == 4,
        d.len() == 4 && e.len() == 4 && g.len() == 4,
    ensures
        (a + b + c + d + e + g).len() == 24,
        (a + b + c + d + e + g).subrange(0, 4) == a,
        (a + b + c + d + e + g).subrange(4, 8) == b,
        (a + b + c + d + e + g).subrange(8, 12) == c,
        (a + b + c + d + e + g).subrange(12, 16) == d,
        (a + b + c + d + e + g).subrange(16, 20) == e,
        (a + b + c + d + e + g).subrange(20, 24) == g,
{
    let w = a + b + c + d + e + g;
    assert(w.subrange(0, 4) =~= a);
    assert(w.subrange(4, 8) =~= b);
    assert(w.subrange(8, 12) =~= c);
    assert(w.subrange(12, 16) =~= d);
    assert(w.subrange(16, 20) =~= e);
    assert(w.subrange(20, 24) =~= g);
}

/// A frame whose command byte is the score id and whose six words hold `s` decodes to `s`.
proof fn lemma_score_frame(f: Seq<u8>, s: CalScore)
    requires
        f.len() == 29,
        f[2] == Command::UserCalScore.id(),
        crate::frame::u32_at(f, 3) == s.mag_cal_score,
        crate::frame::u32_at(f, 7) == s.reserved,
        crate::frame::u32_at(f, 11) == s.accel_cal_score,
        crate::frame::u32_at(f, 15) == s.distribution_error,
        crate::frame::u32_at(f, 19) == s.tilt_error,
        crate::frame::u32_at(f, 23) == s.tilt_range,
        crate::frame::close(f, 27, crate::frame::declared_len(f)) is None,
    ensures
        cal_sample(f) == Ok::<UserCalResponseReserved, Failure>(UserCalResponseReserved::UserCalScore(s)),
{
    assert(cal_score_at(f, 3) == Ok::<(CalScore, int), Failure>((s, 27)));
}

/// A score comes through as the device sends it: a score answer decodes to that score.
pub proof fn lemma_score_answer(s: CalScore)
    ensures
        cal_sample(frame_bytes(Command::UserCalScore.id(), score_bytes(s)))
            == Ok::<UserCalResponseReserved, Failure>(UserCalResponseReserved::UserCalScore(s)),
{
    let c = Command::UserCalScore.id();
    let p = score_bytes(s);
    lemma_frame_layout(c, p);
    lemma_be32_of_bytes(s.mag_cal_score);
    lemma_be32_of_bytes(s.reserved);
    lemma_be32_of_bytes(s.accel_cal_score);
    lemma_be32_of_bytes(s.distribution_error);
    lemma_be32_of_bytes(s.tilt_error);
    lemma_be32_of_bytes(s.tilt_range);
    lemma_six_words(
        u32_bytes(s.mag_cal_score),
        u32_bytes(s.reserved),
        u32_bytes(s.accel_cal_score),
        u32_bytes(s.distribution_error),
        u32_bytes(s.tilt_error),
        u32_bytes(s.tilt_range),
    );
    lemma_u32_in_payload(c, p, 0, s.mag_cal_score);
    lemma_u32_in_payload(c, p, 4, s.reserved);
    lemma_u32_in_payload(c, p, 8, s.accel_cal_score);
    lemma_u32_in_payload(c, p, 12, s.distribution_error);
    lemma_u32_in_payload(c, p, 16, s.tilt_error);
    lemma_u32_in_payload(c, p, 20, s.tilt_range);
    let f = frame_bytes(c, p);
    assert(p.len() == 24);
    lemma_score_frame(f, s);
}

/// Where a user calibration stands.
#[derive(Debug, Clone, Copy, PartialEq, Eq)]
pub enum CalibrationState {
    /// No calibration runs: none was started, or the last one was stopped.
    NotStarted,
    /// A calibration runs, with this many points sampled.
    Sampling(u32),
    /// The last calibration finished with this score.
    Scored(CalScore),
}

/// The state after the device answered `answer` to a calibration sample.
pub open spec fn after_sample(answer: UserCalResponseReserved) -> CalibrationState {
    match answer {
        UserCalResponseReserved::SampleCount(n) => CalibrationState::Sampling(n),
        UserCalResponseReserved::UserCalScore(s) => CalibrationState::Scored(s),
    }
}

/// Tracks one user calibration: started with a geometry, sampled point by point until the
/// device sends the score, or stopped at any time.
pub struct CalibrationSession {
    state: CalibrationState,
}

impl CalibrationSession {
    /// Where the calibration stands.
    pub closed spec fn current(&self) -> CalibrationState {
        self.state
    }

    /// A session with no calibration running.
    pub fn new() -> (r: CalibrationSession)
        ensures
            r.current() == CalibrationState::NotStarted,
    {
        CalibrationSession { state: CalibrationState::NotStarted }
    }

    /// Where the calibration stands.
    pub fn state(&self) -> (r: CalibrationState)
        ensures
            r == self.current(),
    {
        self.state
    }

    /// Takes the device's answer to a calibration start: its sample count, 0 when the
    /// device is ready for the first point, from which sampling goes on. On an error the
    /// session stays where it was.
    pub fn start_cal(&mut self, frame: &[u8]) -> (r: Result<u32, RWError>)
        requires
            frame@.len() >= 2,
        ensures
            outcome(r, response(frame@, Command::UserCalSampleCount, crate::frame::bits_at(frame@, 3))),
            r matches Ok(n) ==> final(self).current() == CalibrationState::Sampling(n),
            r is Err ==> final(self).current() == old(self).current(),
    {
        let r = start_cal_response(frame);
        if let Ok(n) = r {
            self.state = CalibrationState::Sampling(n);
        }
        r
    }

    /// Takes the device's answer to a calibration sample: the new sample count, or the score
    /// after the final point, which ends the calibration. On an error the session stays
    /// where it was.
    pub fn take_user_cal_sample(&mut self, frame: &[u8]) -> (r: Result<UserCalResponse, RWError>)
        requires
            frame@.len() >= 2,
        ensures
            match cal_sample(frame@) {
                Ok(v) => r == Ok::<UserCalResponse, RWError>(UserCalResponse::without_reserved(v))
                    && final(self).current() == after_sample(v),
                Err(f) => r matches Err(RWError::ReadError(e)) && crate::error::reports(e, f)
                    && final(self).current() == old(self).current(),
            },
    {
        match take_user_cal_sample_reserved_response(frame) {
            Ok(v) => {
                self.state = match v {
                    UserCalResponseReserved::SampleCount(n) => CalibrationState::Sampling(n),
                    UserCalResponseReserved::UserCalScore(s) => CalibrationState::Scored(s),
                };
                Ok(UserCalResponse::from_reserved(v))
            },
            Err(e) => Err(e),
        }
    }

    /// Aborts the calibration from any state, keeping the prior calibration results on
    /// the device; returns the frame to send, which the device does not answer.
    pub fn stop_cal(&mut self) -> (r: Vec<u8>)
        ensures
            final(self).current() == CalibrationState::NotStarted,
            r@ == frame_bytes(Command::StopCal.id(), Seq::empty()),
    {
        self.state = CalibrationState::NotStarted;
        let r = Request::StopCal.to_frame();
        proof {
            assert(Request::StopCal.payload() =~= Seq::<u8>::empty());
        }
        r
    }
}

} // verus!
