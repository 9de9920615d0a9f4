//! Host-side protocol engine for a three-axis orientation and compass module that speaks
//! a length-prefixed, CRC-16/XMODEM protected binary protocol over a serial byte stream.
//!
//! The library holds no transport: it builds the bytes of each request frame and decodes
//! each response frame handed to it, so every decision it makes is verified. The caller
//! writes the request bytes and reads one response frame (its two length bytes, then the
//! rest that [`remaining_frame_len`] gives).
pub mod calibration;
pub mod checksum;
pub mod command;
pub mod config;
pub mod data;
pub mod device;
pub mod error;
pub mod frame;
pub mod stream;
pub mod wire;

pub use calibration::{
    CalOption, CalScore, CalibrationSession, CalibrationState, UserCalResponse,
    UserCalResponseReserved,
};
pub use checksum::Checksum;
pub use command::Command;
pub use config::{Baud, ConfigID, ConfigPair, MountingRef};
pub use data::{Data, DataID};
pub use device::{AcqParams, AcqParamsReserved, ModInfoResp, Request};
pub use error::{RWError, ReadError, TransportError, WriteError};
pub use frame::{close_verdict, decode_frame, remaining_frame_len, write_frame, FrameReader, Get};
pub use stream::{continuous_mode_next, Incoming};
