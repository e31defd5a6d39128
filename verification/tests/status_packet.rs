use skiboot::codec::{ByteSize, FromBytesLe, ToBytesLe};
use skiboot::imu::{DEFAULT_ACCEL_CALIBRATION, DEFAULT_GYRO_CALIBRATION};
use skiboot::imu_conf::ImuStatus;
use skiboot::status::Status;

#[test]
fn default_status_packet() {
    let s = Status::new(DEFAULT_ACCEL_CALIBRATION, DEFAULT_GYRO_CALIBRATION);
    let p = s.status_packet();
    let mut expected = [0u8; 32];
    expected[0] = 0;
    let vals: [i16; 6] = [-3399, -3054, 947, 123, -46, -24];
    for (i, v) in vals.iter().enumerate() {
        expected[i * 2 + 1..i * 2 + 3].copy_from_slice(&v.to_le_bytes());
    }
    assert_eq!(p, expected);
    assert_eq!(Status::SIZE, 32);
}

#[test]
fn status_packet_roundtrip() {
    let mut s = Status::new([1, -1, 300], [-300, 0, 7]);
    s.set_status(ImuStatus::Calibrating);
    let p = s.status_packet();
    assert_eq!(p[0], 2);
    assert!(p[13..].iter().all(|b| *b == 0));
    assert_eq!(Status::from_le_bytes(&p), s);
    assert_eq!(Status::try_from_le_bytes(&p[..31]), None);
}

#[test]
fn status_to_bytes_keeps_tail() {
    let s = Status::new([0, 0, 0], [0, 0, 0]);
    let mut buf = [9u8; 34];
    assert_eq!(s.to_bytes_le(&mut buf), 32);
    assert_eq!(&buf[32..], &[9, 9]);
}

#[test]
fn status_unknown_code_reads_initializing() {
    let mut p = [0u8; 32];
    p[0] = 9;
    p[1] = 5;
    let s = Status::from_le_bytes(&p);
    assert_eq!(s.status, ImuStatus::Initializing);
    assert_eq!(s.accel, [5, 0, 0]);
}

#[test]
fn calibration_accessors() {
    let mut s = Status::new([1, 2, 3], [4, 5, 6]);
    assert_eq!(s.calibration(), ([1, 2, 3], [4, 5, 6]));
    s.set_calibration(([7, 8, 9], [10, 11, 12]));
    assert_eq!(s.calibration(), ([7, 8, 9], [10, 11, 12]));
    assert_eq!(s.status(), ImuStatus::Initializing);
    s.set_status(ImuStatus::Ready);
    assert_eq!(s.status(), ImuStatus::Ready);
}
