//! The command ids that every frame carries.
use vstd::prelude::*;

verus! {

/// The type of command sent to or received from the device. Every frame has one.
#[derive(Debug, Clone, Copy, PartialEq, Eq)]
pub enum Command {
    /// Queries the device's type and firmware revision.
    GetModInfo,
    /// Response to GetModInfo.
    GetModInfoResp,
    /// Sets the data components to be output.
    SetDataComponents,
    /// Queries the device for data.
    GetData,
    /// Response to GetData.
    GetDataResp,
    /// Sets an internal configuration value.
    SetConfig,
    /// Queries an internal configuration value.
    GetConfig,
    /// Response to GetConfig.
    GetConfigResp,
    /// Saves the configuration and user calibration to non-volatile memory.
    Save,
    /// Starts user calibration.
    StartCal,
    /// Stops user calibration.
    StopCal,
    /// Sets the FIR filter settings.
    SetFIRFilters,
    /// Queries the FIR filter settings.
    GetFIRFilters,
    /// Response to GetFIRFilters.
    GetFIRFiltersResp,
    /// Powers down the module.
    PowerDown,
    /// Response to Save.
    SaveDone,
    /// Sent after taking a calibration sample point.
    UserCalSampleCount,
    /// Contains the calibration score.
    UserCalScore,
    /// Response to SetConfig.
    SetConfigDone,
    /// Response to SetFIRFilters.
    SetFIRFiltersDone,
    /// Starts output of data at a fixed interval.
    StartContinuousMode,
    /// Stops data output in continuous mode.
    StopContinuousMode,
    /// Confirms that the device has powered up.
    PowerUpDone,
    /// Sets the sensor acquisition parameters.
    SetAcqParams,
    /// Queries the sensor acquisition parameters.
    GetAcqParams,
    /// Response to SetAcqParams.
    SetAcqParamsDone,
    /// Response to GetAcqParams.
    GetAcqParamsResp,
    /// Response to PowerDown.
    PowerDownDone,
    /// Restores the factory magnetometer coefficients.
    FactoryMagCoeff,
    /// Response to FactoryMagCoeff.
    FactoryMagCoeffDone,
    /// Takes a sample during user calibration.
    TakeUserCalSample,
    /// Restores the factory accelerometer coefficients.
    FactorylAccelCoeff,
    /// Response to FactorylAccelCoeff.
    FactoryAccelCoeffDone,
    /// Copies one set of calibration coefficients to another.
    CopyCoeffSet,
    /// Response to CopyCoeffSet.
    CopyCoeffSetDone,
    /// Queries the serial number.
    SerialNumber,
    /// Response to SerialNumber.
    SerialNumberResp,
}

impl Command {
    /// The id byte of the command on the wire.
    pub open spec fn id(self) -> u8 {
        match self {
            Command::GetModInfo => 0x01,
            Command::GetModInfoResp => 0x02,
            Command::SetDataComponents => 0x03,
            Command::GetData => 0x04,
            Command::GetDataResp => 0x05,
            Command::SetConfig => 0x06,
            Command::GetConfig => 0x07,
            Command::GetConfigResp => 0x08,
            Command::Save => 0x09,
            Command::StartCal => 0x0A,
            Command::StopCal => 0x0B,
            Command::SetFIRFilters => 0x0C,
            Command::GetFIRFilters => 0x0D,
            Command::GetFIRFiltersResp => 0x0E,
            Command::PowerDown => 0x0F,
            Command::SaveDone => 0x10,
            Command::UserCalSampleCount => 0x11,
            Command::UserCalScore => 0x12,
            Command::SetConfigDone => 0x13,
            Command::SetFIRFiltersDone => 0x14,
            Command::StartContinuousMode => 0x15,
            Command::StopContinuousMode => 0x16,
            Command::PowerUpDone => 0x17,
            Command::SetAcqParams => 0x18,
            Command::GetAcqParams => 0x19,
            Command::SetAcqParamsDone => 0x1A,
            Command::GetAcqParamsResp => 0x1B,
            Command::PowerDownDone => 0x1C,
            Command::FactoryMagCoeff => 0x1D,
            Command::FactoryMagCoeffDone => 0x1E,
            Command::TakeUserCalSample => 0x1F,
            Command::FactorylAccelCoeff => 0x24,
            Command::FactoryAccelCoeffDone => 0x25,
            Command::CopyCoeffSet => 0x2B,
            Command::CopyCoeffSetDone => 0x2C,
            Command::SerialNumber => 0x34,
            Command::SerialNumberResp => 0x35,
        }
    }

    /// The id byte of the command on the wire.
    pub fn discriminant(&self) -> (r: u8)
        ensures
            r == self.id(),
    {
        match self {
            Command::GetModInfo => 0x01,
            Command::GetModInfoResp => 0x02,
            Command::SetDataComponents => 0x03,
            Command::GetData => 0x04,
            Command::GetDataResp => 0x05,
            Command::SetConfig => 0x06,
            Command::GetConfig => 0x07,
            Command::GetConfigResp => 0x08,
            Command::Save => 0x09,
            Command::StartCal => 0x0A,
            Command::StopCal => 0x0B,
            Command::SetFIRFilters => 0x0C,
            Command::GetFIRFilters => 0x0D,
            Command::GetFIRFiltersResp => 0x0E,
            Command::PowerDown => 0x0F,
            Command::SaveDone => 0x10,
            Command::UserCalSampleCount => 0x11,
            Command::UserCalScore => 0x12,
            Command::SetConfigDone => 0x13,
            Command::SetFIRFiltersDone => 0x14,
            Command::StartContinuousMode => 0x15,
            Command::StopContinuousMode => 0x16,
            Command::PowerUpDone => 0x17,
            Command::SetAcqParams => 0x18,
            Command::GetAcqParams => 0x19,
            Command::SetAcqParamsDone => 0x1A,
            Command::GetAcqParamsResp => 0x1B,
            Command::PowerDownDone => 0x1C,
            Command::FactoryMagCoeff => 0x1D,
            Command::FactoryMagCoeffDone => 0x1E,
            Command::TakeUserCalSample => 0x1F,
            Command::FactorylAccelCoeff => 0x24,
            Command::FactoryAccelCoeffDone => 0x25,
            Command::CopyCoeffSet => 0x2B,
            Command::CopyCoeffSetDone => 0x2C,
            Command::SerialNumber => 0x34,
            Command::SerialNumberResp => 0x35,
        }
    }
}

} // verus!
