use pni_sdk::device::{
    get_acq_params_response, get_fir_filters_response, get_mod_info_response, power_down_outcome,
    power_up_response, save_response, serial_number_response, start_cal_response,
    take_user_cal_sample_reserved_response, take_user_cal_sample_response,
};
use pni_sdk::{
    decode_frame, write_frame, AcqParams, AcqParamsReserved, CalOption, CalScore, Command,
    ConfigID, DataID, RWError, ReadError, Request, UserCalResponse, UserCalResponseReserved,
    WriteError, TransportError,
};

fn parts(r: &Request) -> (u8, Vec<u8>) {
    assert!(r.is_sendable());
    decode_frame(&r.to_frame()).unwrap()
}

#[test]
fn request_commands_and_payloads() {
    assert_eq!(parts(&Request::GetModInfo), (0x01, vec![]));
    assert_eq!(parts(&Request::GetConfig(ConfigID::BaudRate)), (0x07, vec![14]));
    assert_eq!(parts(&Request::StartCal(CalOption::FullRange)), (0x0A, vec![0, 0, 0, 10]));
    assert_eq!(parts(&Request::StartCal(CalOption::MagAndAccel)), (0x0A, vec![0, 0, 0, 110]));
    assert_eq!(parts(&Request::PowerUp), (0x34, vec![]));
    assert_eq!(parts(&Request::FactoryMagCoeff), (0x0A, vec![]));
    assert_eq!(parts(&Request::FactoryAccelCoeff), (0x24, vec![]));
    assert_eq!(parts(&Request::StopCal), (0x0B, vec![]));
    assert_eq!(parts(&Request::CopyCoeffSet { set_type: 1, set_indexes: 0x27 }), (0x2B, vec![1, 0x27]));
    assert_eq!(parts(&Request::GetFIRFilters), (0x0D, vec![3, 1]));
    assert_eq!(
        parts(&Request::SetDataComponents(vec![DataID::AccelX, DataID::Heading])),
        (0x03, vec![2, 21, 5])
    );
    assert_eq!(
        parts(&Request::SetFIRFilters(vec![1.0f64.to_bits()])),
        (0x0C, vec![3, 1, 0x3F, 0xF0, 0, 0, 0, 0, 0, 0])
    );
    let acq = AcqParams { acquisition_mode: false, flush_filter: true, sample_delay: 0.25f32.to_bits() };
    assert_eq!(
        parts(&Request::SetAcqParams(acq.with_zero_reserved())),
        (0x18, vec![0, 1, 0, 0, 0, 0, 0x3E, 0x80, 0, 0])
    );
}

#[test]
fn oversized_requests_are_refused() {
    assert!(!Request::SetDataComponents(vec![DataID::Heading; 256]).is_sendable());
    assert!(Request::SetDataComponents(vec![DataID::Heading; 255]).is_sendable());
    assert!(!Request::SetFIRFilters(vec![0; 8191]).is_sendable());
}

#[test]
fn mod_info_text() {
    let f = write_frame(Command::GetModInfoResp, Some(b"TP3 1.05"));
    let m = get_mod_info_response(&f).unwrap();
    assert_eq!(m.device_type, "TP3 ");
    assert_eq!(m.revision, "1.05");
}

#[test]
fn mod_info_not_utf8() {
    let f = write_frame(Command::GetModInfoResp, Some(&[0xFF, 0xFE, 0x41, 0x42, 0x31, 0x32, 0x33, 0x34]));
    match get_mod_info_response(&f) {
        Err(RWError::ReadError(ReadError::ParseError(m))) => assert_eq!(m, "UTF8 String couldn't be parsed"),
        other => panic!("unexpected {:?}", other),
    }
}

#[test]
fn serial_number_value() {
    let f = write_frame(Command::SerialNumberResp, Some(&[0x00, 0x12, 0xD6, 0x87]));
    assert_eq!(serial_number_response(&f).unwrap(), 1234567);
}

#[test]
fn save_status() {
    assert!(save_response(&write_frame(Command::SaveDone, Some(&[0, 0]))).is_ok());
    match save_response(&write_frame(Command::SaveDone, Some(&[0, 1]))) {
        Err(RWError::DeviceError(m)) => {
            assert_eq!(m, "Received error code from device, settings not saved successfully")
        }
        other => panic!("unexpected {:?}", other),
    }
}

#[test]
fn acq_params_with_reserved() {
    let payload = [1, 0, 0x3F, 0x80, 0, 0, 0x3E, 0x80, 0, 0];
    let a = get_acq_params_response(&write_frame(Command::GetAcqParamsResp, Some(&payload))).unwrap();
    assert_eq!(
        a,
        AcqParamsReserved {
            acquisition_mode: true,
            flush_filter: false,
            reserved: 1.0f32.to_bits(),
            sample_delay: 0.25f32.to_bits(),
        }
    );
    let p = AcqParams::from_reserved(a);
    assert!(p.acquisition_mode && !p.flush_filter);
    assert_eq!(f32::from_bits(p.sample_delay), 0.25);
}

#[test]
fn power_up_accepts_both_answers() {
    assert!(power_up_response(&write_frame(Command::PowerUpDone, None)).is_ok());
    assert!(power_up_response(&write_frame(Command::SerialNumberResp, Some(&[0, 0, 0, 9]))).is_ok());
    match power_up_response(&write_frame(Command::SaveDone, None)) {
        Err(RWError::ReadError(ReadError::ParseError(m))) => {
            assert_eq!(m, "Unexpected response type: expected 23, got 16")
        }
        other => panic!("unexpected {:?}", other),
    }
}

#[test]
fn power_down_ignores_read_errors() {
    let read_failed = Err(RWError::ReadError(ReadError::PipeError(TransportError::TimedOut)));
    assert!(power_down_outcome(read_failed).is_ok());
    let write_failed = Err(RWError::WriteError(WriteError::PipeError(TransportError::TimedOut)));
    assert!(matches!(power_down_outcome(write_failed), Err(RWError::WriteError(_))));
    assert!(power_down_outcome(Ok(())).is_ok());
}

fn score_payload() -> Vec<u8> {
    let mut p = Vec::new();
    for v in [0.5f32, 0.0, 0.75, 0.0, 0.0, 30.0] {
        p.extend_from_slice(&v.to_bits().to_be_bytes());
    }
    p
}

#[test]
fn calibration_answers() {
    assert_eq!(start_cal_response(&write_frame(Command::UserCalSampleCount, Some(&[0, 0, 0, 0]))).unwrap(), 0);
    let count = write_frame(Command::UserCalSampleCount, Some(&[0, 0, 0, 3]));
    assert_eq!(take_user_cal_sample_response(&count).unwrap(), UserCalResponse::SampleCount(3));
    let score = write_frame(Command::UserCalScore, Some(&score_payload()));
    assert_eq!(
        take_user_cal_sample_reserved_response(&score).unwrap(),
        UserCalResponseReserved::UserCalScore(CalScore {
            mag_cal_score: 0.5f32.to_bits(),
            reserved: 0,
            accel_cal_score: 0.75f32.to_bits(),
            distribution_error: 0,
            tilt_error: 0,
            tilt_range: 30.0f32.to_bits(),
        })
    );
    assert_eq!(
        take_user_cal_sample_response(&score).unwrap(),
        UserCalResponse::UserCalScore {
            mag_cal_score: 0.5f32.to_bits(),
            accel_cal_score: 0.75f32.to_bits(),
            distribution_error: 0,
            tilt_error: 0,
            tilt_range: 30.0f32.to_bits(),
        }
    );
}

#[test]
fn fir_filter_taps() {
    let mut payload = vec![3, 1, 2];
    payload.extend_from_slice(&0.5f64.to_bits().to_be_bytes());
    payload.extend_from_slice(&0.25f64.to_bits().to_be_bytes());
    let taps = get_fir_filters_response(&write_frame(Command::GetFIRFiltersResp, Some(&payload))).unwrap();
    assert_eq!(taps, vec![0.5f64.to_bits(), 0.25f64.to_bits()]);
    let short = write_frame(Command::GetFIRFiltersResp, Some(&payload[..11]));
    assert!(matches!(
        get_fir_filters_response(&short),
        Err(RWError::ReadError(ReadError::SizeMismatch { .. }))
    ));
}

#[test]
fn answers_to_requests() {
    assert_eq!(Request::Save.expected_answer(), Some(Command::SaveDone));
    assert_eq!(Request::GetFIRFilters.expected_answer(), Some(Command::GetFIRFiltersResp));
    assert_eq!(Request::FactoryMagCoeff.expected_answer(), Some(Command::FactoryMagCoeffDone));
    assert_eq!(Request::PowerUp.expected_answer(), Some(Command::PowerUpDone));
    assert_eq!(Request::StopCal.expected_answer(), None);
    assert_eq!(Request::SetDataComponents(vec![]).expected_answer(), None);
}
