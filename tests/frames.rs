use pni_sdk::{
    close_verdict, decode_frame, remaining_frame_len, write_frame, Checksum, Command, ReadError,
};

/// Bitwise CRC-16/XMODEM: polynomial 0x1021, initial value 0, no reflection, no final XOR.
fn reference_crc(bytes: &[u8]) -> u16 {
    let mut crc: u16 = 0;
    for &b in bytes {
        crc ^= (b as u16) << 8;
        for _ in 0..8 {
            crc = if crc & 0x8000 != 0 { (crc << 1) ^ 0x1021 } else { crc << 1 };
        }
    }
    crc
}

#[test]
fn reference_crc_check_value() {
    assert_eq!(reference_crc(b"123456789"), 0x31C3);
}

#[test]
fn frame_checksum_matches_reference() {
    let payloads: Vec<Vec<u8>> = vec![
        vec![],
        vec![0x00],
        vec![0xFF; 7],
        b"123456789".to_vec(),
        (0u8..=255).collect(),
        (0..1000u32).map(|i| (i * 37 % 251) as u8).collect(),
    ];
    for p in payloads {
        let f = write_frame(Command::SetConfig, Some(&p));
        let n = f.len();
        let carried = ((f[n - 2] as u16) << 8) | f[n - 1] as u16;
        assert_eq!(carried, reference_crc(&f[..n - 2]));
    }
}

#[test]
fn get_mod_info_frame_exact() {
    assert_eq!(write_frame(Command::GetModInfo, None), vec![0x00, 0x05, 0x01, 0xEF, 0xD4]);
}

#[test]
fn frame_length_is_payload_plus_five() {
    for len in [0usize, 1, 4, 100, 300] {
        let p = vec![0xA5u8; len];
        let f = write_frame(Command::GetConfig, Some(&p));
        assert_eq!(f.len(), len + 5);
        assert_eq!(((f[0] as usize) << 8) | f[1] as usize, len + 5);
        assert_eq!(f[2], 0x07);
        assert_eq!(&f[3..3 + len], &p[..]);
    }
}

#[test]
fn none_payload_is_empty_payload() {
    assert_eq!(write_frame(Command::Save, None), write_frame(Command::Save, Some(&[])));
}

#[test]
fn frame_round_trip() {
    let cases: Vec<(Command, Vec<u8>)> = vec![
        (Command::GetData, vec![]),
        (Command::SetConfig, vec![1, 0x3F, 0x80, 0, 0]),
        (Command::SetFIRFilters, (0u8..200).collect()),
    ];
    for (c, p) in cases {
        let f = write_frame(c, Some(&p));
        let (cmd, payload) = decode_frame(&f).unwrap();
        assert_eq!(cmd, c.discriminant());
        assert_eq!(payload, p);
    }
}

#[test]
fn size_mismatch_whatever_the_checksum() {
    let mut f = write_frame(Command::SerialNumberResp, Some(&[0, 0, 0, 42]));
    f[1] = 8;
    match decode_frame(&f) {
        Err(ReadError::SizeMismatch { expected, actual }) => {
            assert_eq!(expected, 8);
            assert_eq!(actual, 9);
        }
        other => panic!("unexpected {:?}", other),
    }
    let n = f.len();
    f[n - 1] ^= 0xFF;
    assert!(matches!(
        decode_frame(&f),
        Err(ReadError::SizeMismatch { expected: 8, actual: 9 })
    ));
}

#[test]
fn checksum_mismatch_reports_both_sums() {
    let mut f = write_frame(Command::SerialNumberResp, Some(&[0, 0, 0, 42]));
    let n = f.len();
    let good = ((f[n - 2] as u16) << 8) | f[n - 1] as u16;
    f[n - 1] ^= 0x01;
    match decode_frame(&f) {
        Err(ReadError::ChecksumMismatch { expected, actual }) => {
            assert_eq!(expected, good);
            assert_eq!(actual, good ^ 0x01);
        }
        other => panic!("unexpected {:?}", other),
    }
}

#[test]
fn frame_too_short_for_a_command() {
    assert!(matches!(
        decode_frame(&[0x00, 0x03, 0x01]),
        Err(ReadError::SizeMismatch { expected: 3, actual: 5 })
    ));
}

#[test]
fn remaining_length_after_prefix() {
    assert_eq!(remaining_frame_len(0x00, 0x05), 3);
    assert_eq!(remaining_frame_len(0x01, 0x02), 256);
    assert_eq!(remaining_frame_len(0x00, 0x01), 0);
}

#[test]
fn close_verdict_cases() {
    assert!(close_verdict(7, 9, 0x1234, 0x1234).is_ok());
    assert!(matches!(
        close_verdict(7, 9, 0x1234, 0x1235),
        Err(ReadError::ChecksumMismatch { expected: 0x1234, actual: 0x1235 })
    ));
    assert!(matches!(
        close_verdict(8, 9, 0x1234, 0x1235),
        Err(ReadError::SizeMismatch { expected: 9, actual: 10 })
    ));
    assert!(matches!(
        close_verdict(70000, 9, 0, 0),
        Err(ReadError::SizeMismatch { expected: 9, actual: 0xFFFF })
    ));
}

#[test]
fn running_checksum_folds_in_pieces() {
    let mut c = Checksum::new();
    assert_eq!(c.finish(), 0);
    c.update(b"12345");
    c.update(b"6789");
    assert_eq!(c.finish(), 0x31C3);
    assert_eq!(c.finish(), 0x31C3);
    assert_eq!(c.finish(), reference_crc(b"123456789"));
}
