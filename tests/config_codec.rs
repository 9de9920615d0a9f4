use pni_sdk::device::{get_config_response, done_response};
use pni_sdk::{write_frame, Baud, Command, ConfigID, ConfigPair, MountingRef, RWError, ReadError};

fn id_of(p: &ConfigPair) -> ConfigID {
    match p {
        ConfigPair::Declination(_) => ConfigID::Declination,
        ConfigPair::TrueNorth(_) => ConfigID::TrueNorth,
        ConfigPair::BigEndian(_) => ConfigID::BigEndian,
        ConfigPair::MountingRef(_) => ConfigID::MountingRef,
        ConfigPair::UserCalNumPoints(_) => ConfigID::UserCalNumPoints,
        ConfigPair::UserCalAutoSampling(_) => ConfigID::UserCalAutoSampling,
        ConfigPair::BaudRate(_) => ConfigID::BaudRate,
        ConfigPair::MilOut(_) => ConfigID::MilOut,
        ConfigPair::HPRDuringCal(_) => ConfigID::HPRDuringCal,
        ConfigPair::MagCoeffSet(_) => ConfigID::MagCoeffSet,
        ConfigPair::AccelCoeffSet(_) => ConfigID::AccelCoeffSet,
    }
}

fn all_pairs() -> Vec<ConfigPair> {
    vec![
        ConfigPair::Declination((-12.5f32).to_bits()),
        ConfigPair::TrueNorth(true),
        ConfigPair::BigEndian(false),
        ConfigPair::MountingRef(MountingRef::Std0),
        ConfigPair::MountingRef(MountingRef::ZDown270),
        ConfigPair::UserCalNumPoints(12),
        ConfigPair::UserCalAutoSampling(true),
        ConfigPair::BaudRate(Baud::B2400),
        ConfigPair::BaudRate(Baud::B115200),
        ConfigPair::MilOut(false),
        ConfigPair::HPRDuringCal(true),
        ConfigPair::MagCoeffSet(7),
        ConfigPair::AccelCoeffSet(0x0102_0304),
    ]
}

#[test]
fn config_encoding_exact() {
    assert_eq!(ConfigPair::Declination(1.0f32.to_bits()).to_bytes(), vec![1, 0x3F, 0x80, 0, 0]);
    assert_eq!(ConfigPair::TrueNorth(true).to_bytes(), vec![2, 1]);
    assert_eq!(ConfigPair::BigEndian(false).to_bytes(), vec![6, 0]);
    assert_eq!(ConfigPair::MountingRef(MountingRef::Std90).to_bytes(), vec![10, 4]);
    assert_eq!(ConfigPair::UserCalNumPoints(12).to_bytes(), vec![12, 0, 0, 0, 12]);
    assert_eq!(ConfigPair::BaudRate(Baud::B38400).to_bytes(), vec![14, 12]);
    assert_eq!(ConfigPair::AccelCoeffSet(0x0102_0304).to_bytes(), vec![19, 1, 2, 3, 4]);
}

#[test]
fn config_round_trip_every_tag() {
    for p in all_pairs() {
        let bytes = p.to_bytes();
        assert_eq!(bytes[0], id_of(&p).discriminant());
        let f = write_frame(Command::GetConfigResp, Some(&bytes[1..]));
        assert_eq!(get_config_response(&f, id_of(&p)).unwrap(), p);
    }
}

fn decode_one(id: ConfigID, value: u8) -> Result<ConfigPair, RWError> {
    get_config_response(&write_frame(Command::GetConfigResp, Some(&[value])), id)
}

#[test]
fn mounting_ref_out_of_range() {
    for v in [0u8, 17, 255] {
        match decode_one(ConfigID::MountingRef, v) {
            Err(RWError::ReadError(ReadError::ParseError(m))) => {
                assert_eq!(m, "MountingRef must be within [1, 16]")
            }
            other => panic!("unexpected {:?}", other),
        }
    }
    assert_eq!(decode_one(ConfigID::MountingRef, 16).unwrap(), ConfigPair::MountingRef(MountingRef::ZDown270));
}

#[test]
fn baud_out_of_range() {
    for v in [0u8, 3, 15] {
        assert!(matches!(
            decode_one(ConfigID::BaudRate, v),
            Err(RWError::ReadError(ReadError::ParseError(_)))
        ));
    }
    assert_eq!(decode_one(ConfigID::BaudRate, 4).unwrap(), ConfigPair::BaudRate(Baud::B2400));
}

#[test]
fn set_config_done() {
    assert!(done_response(&write_frame(Command::SetConfigDone, None), Command::SetConfigDone).is_ok());
    assert!(done_response(&write_frame(Command::SaveDone, None), Command::SetConfigDone).is_err());
}
