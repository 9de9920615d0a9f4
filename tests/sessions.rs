use pni_sdk::{
    continuous_mode_next, write_frame, CalibrationSession, CalibrationState, Command, Data,
    Incoming, ReadError, TransportError, UserCalResponse,
};

fn accel_frame(x: f32) -> Vec<u8> {
    let mut p = vec![0x01, 21];
    p.extend_from_slice(&x.to_bits().to_be_bytes());
    write_frame(Command::GetDataResp, Some(&p))
}

#[test]
fn continuous_mode() {
    for i in 0..16 {
        let item = continuous_mode_next(Incoming::Frame(accel_frame(i as f32)));
        assert!(
            matches!(item, Some(Ok(Data { accel_x: Some(_), .. }))),
            "Calling next on interator in continuous mode should yield the data we asked for"
        );
    }
    assert!(
        continuous_mode_next(Incoming::LengthFailed(TransportError::TimedOut)).is_none(),
        "Stop continious mode should leave continuous mode"
    );
}

#[test]
fn stream_errors_keep_the_stream_going() {
    match continuous_mode_next(Incoming::LengthFailed(TransportError::Failed("broken pipe".to_string()))) {
        Some(Err(ReadError::PipeError(TransportError::Failed(m)))) => assert_eq!(m, "broken pipe"),
        other => panic!("unexpected {:?}", other),
    }
    assert!(matches!(
        continuous_mode_next(Incoming::BodyFailed(TransportError::TimedOut)),
        Some(Err(ReadError::PipeError(TransportError::TimedOut)))
    ));
    let d = continuous_mode_next(Incoming::Frame(accel_frame(2.5))).unwrap().unwrap();
    assert_eq!(d.accel_x, Some(2.5f32.to_bits()));
}

#[test]
fn stream_frame_of_another_kind() {
    let f = write_frame(Command::SaveDone, Some(&[0, 0]));
    match continuous_mode_next(Incoming::Frame(f)) {
        Some(Err(ReadError::ParseError(m))) => assert_eq!(m, "Unexpected response type: expected 5, got 16"),
        other => panic!("unexpected {:?}", other),
    }
}

fn count_frame(n: u32) -> Vec<u8> {
    write_frame(Command::UserCalSampleCount, Some(&n.to_be_bytes()))
}

#[test]
fn calibration_session_counts_then_scores() {
    let mut s = CalibrationSession::new();
    assert_eq!(s.state(), CalibrationState::NotStarted);
    assert_eq!(s.start_cal(&count_frame(0)).unwrap(), 0);
    assert_eq!(s.state(), CalibrationState::Sampling(0));
    for n in 1..=12u32 {
        assert_eq!(s.take_user_cal_sample(&count_frame(n)).unwrap(), UserCalResponse::SampleCount(n));
        assert_eq!(s.state(), CalibrationState::Sampling(n));
    }
    let mut score = Vec::new();
    for v in [0.9f32, 0.0, 0.4, 0.0, 0.0, 42.0] {
        score.extend_from_slice(&v.to_bits().to_be_bytes());
    }
    let r = s.take_user_cal_sample(&write_frame(Command::UserCalScore, Some(&score))).unwrap();
    assert!(matches!(r, UserCalResponse::UserCalScore { .. }));
    assert!(matches!(s.state(), CalibrationState::Scored(_)));
}

#[test]
fn calibration_stop_from_any_state() {
    let mut s = CalibrationSession::new();
    s.start_cal(&count_frame(0)).unwrap();
    s.take_user_cal_sample(&count_frame(1)).unwrap();
    let f = s.stop_cal();
    assert_eq!(f, write_frame(Command::StopCal, None));
    assert_eq!(s.state(), CalibrationState::NotStarted);
}

#[test]
fn calibration_error_keeps_state() {
    let mut s = CalibrationSession::new();
    s.start_cal(&count_frame(0)).unwrap();
    assert!(s.take_user_cal_sample(&write_frame(Command::SaveDone, None)).is_err());
    assert_eq!(s.state(), CalibrationState::Sampling(0));
}
