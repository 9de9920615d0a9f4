use pni_sdk::device::get_data_response;
use pni_sdk::error::ParseReason;
use pni_sdk::{write_frame, Command, Data, DataID, RWError, ReadError};

fn data_frame(payload: &[u8]) -> Vec<u8> {
    write_frame(Command::GetDataResp, Some(payload))
}

#[test]
fn sparse_record_decodes_by_id() {
    let payload = [0x02, 0x15, 0x3F, 0x80, 0x00, 0x00, 0x05, 0x43, 0x34, 0x00, 0x00];
    let d = get_data_response(&data_frame(&payload)).unwrap();
    assert_eq!(d.accel_x.map(f32::from_bits), Some(1.0));
    assert_eq!(d.heading.map(f32::from_bits), Some(180.0));
    let mut rest = d;
    rest.accel_x = None;
    rest.heading = None;
    assert_eq!(rest, Data::empty());
}

#[test]
fn record_with_flags() {
    let payload = [0x02, 0x08, 0x01, 0x09, 0x00];
    let d = get_data_response(&data_frame(&payload)).unwrap();
    assert_eq!(d.distortion, Some(true));
    assert_eq!(d.cal_status, Some(false));
    assert_eq!(d.heading, None);
}

#[test]
fn empty_record() {
    let d = get_data_response(&data_frame(&[0x00])).unwrap();
    assert_eq!(d, Data::empty());
}

#[test]
fn every_channel_id() {
    let ids: [(DataID, u8); 13] = [
        (DataID::Heading, 5),
        (DataID::Pitch, 24),
        (DataID::Roll, 25),
        (DataID::Temperature, 7),
        (DataID::Distortion, 8),
        (DataID::CalStatus, 9),
        (DataID::AccelX, 21),
        (DataID::AccelY, 22),
        (DataID::AccelZ, 23),
        (DataID::MagX, 27),
        (DataID::MagY, 28),
        (DataID::MagZ, 29),
        (DataID::MagAccuracy, 88),
    ];
    for (c, id) in ids {
        assert_eq!(c.discriminant(), id);
        assert_eq!(DataID::try_from(id).unwrap(), c);
    }
}

fn parse_message(r: Result<Data, RWError>) -> String {
    match r {
        Err(RWError::ReadError(ReadError::ParseError(s))) => s,
        other => panic!("unexpected {:?}", other),
    }
}

#[test]
fn channel_id_79_explains_missing_channel_list() {
    let m = parse_message(get_data_response(&data_frame(&[0x01, 79, 0, 0, 0, 0])));
    assert!(m.starts_with("Unknown DataID from device: 79."));
    assert!(m.contains("set_data_components is not called"));
}

#[test]
fn channel_id_200_is_unknown() {
    let m = parse_message(get_data_response(&data_frame(&[0x01, 200, 0, 0, 0, 0])));
    assert_eq!(m, "Unknown DataID from device: 200");
    let m = parse_message(get_data_response(&data_frame(&[0x01, 3])));
    assert_eq!(m, "Unknown DataID from device: 3");
}

#[test]
fn flag_other_than_zero_or_one() {
    let m = parse_message(get_data_response(&data_frame(&[0x01, 0x08, 0x02])));
    assert_eq!(m, "Boolean must be 0 for false, 1 for true and nothing else");
}

#[test]
fn wrong_response_command() {
    let f = write_frame(Command::GetConfigResp, Some(&[0x00]));
    let m = parse_message(get_data_response(&f));
    assert_eq!(m, "Unexpected response type: expected 5, got 8");
}

#[test]
fn record_longer_than_its_frame() {
    let f = data_frame(&[0x02, 0x15, 0x3F, 0x80, 0x00, 0x00]);
    match get_data_response(&f) {
        Err(RWError::ReadError(ReadError::SizeMismatch { expected, actual })) => {
            assert_eq!(expected, 11);
            assert_eq!(actual, 12);
        }
        other => panic!("unexpected {:?}", other),
    }
}

#[test]
fn record_shorter_than_its_frame() {
    let f = data_frame(&[0x00, 0x99]);
    assert!(matches!(
        get_data_response(&f),
        Err(RWError::ReadError(ReadError::SizeMismatch { expected: 7, actual: 6 }))
    ));
}

#[test]
fn parse_reason_text() {
    let e = pni_sdk::error::parse_error(ParseReason::UnexpectedResponse { expected: 255, got: 10 });
    assert_eq!(e.message(), "Unexpected response type: expected 255, got 10");
}
