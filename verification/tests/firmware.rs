use skiboot::codec::{FromBytesLe, ImuData, Tri};
use skiboot::imu::{
    fifo_action, handle_write_events, split_dmp_packet, FifoAction, ImuTask, SampleStep, WriteOutcome,
    DEFAULT_ACCEL_CALIBRATION, DEFAULT_GYRO_CALIBRATION,
};
use skiboot::imu_conf::{ImuCommand, ImuStatus};
use skiboot::status::Status;

#[test]
fn write_to_conf_calibrates() {
    let out = handle_write_events(7, &[1, 0, 0], 7);
    assert_eq!(out, WriteOutcome { handled: true, queued: Some(ImuCommand::Calibrate) });
}

#[test]
fn write_to_conf_other_command() {
    let out = handle_write_events(7, &[0], 7);
    assert_eq!(out, WriteOutcome { handled: true, queued: None });
    let out = handle_write_events(7, &[42, 1], 7);
    assert_eq!(out, WriteOutcome { handled: true, queued: None });
}

#[test]
fn write_to_other_handle_ignored() {
    let out = handle_write_events(3, &[], 7);
    assert_eq!(out, WriteOutcome { handled: false, queued: None });
}

#[test]
fn fifo_thresholds() {
    assert_eq!(fifo_action(0), FifoAction::Wait);
    assert_eq!(fifo_action(27), FifoAction::Wait);
    assert_eq!(fifo_action(28), FifoAction::Read);
    assert_eq!(fifo_action(1023), FifoAction::Read);
    assert_eq!(fifo_action(1024), FifoAction::Reset);
    assert_eq!(fifo_action(5000), FifoAction::Reset);
}

#[test]
fn dmp_packet_split() {
    let mut buf = [0u8; 28];
    for (i, b) in buf.iter_mut().enumerate() {
        *b = i as u8;
    }
    buf[16] = 0xFF;
    buf[17] = 0xFE;
    let p = split_dmp_packet(&buf);
    assert_eq!(&p.quat[..], &buf[0..16]);
    assert_eq!(p.gyro, [-2, i16::from_be_bytes([18, 19]), i16::from_be_bytes([20, 21])]);
    assert_eq!(
        p.accel,
        [
            i16::from_be_bytes([22, 23]),
            i16::from_be_bytes([24, 25]),
            i16::from_be_bytes([26, 27]),
        ]
    );
}

#[test]
fn sample_from_dmp_orders_quaternion() {
    let a = Tri { x: 1, y: 2, z: 3 };
    let g = Tri { x: 4, y: 5, z: 6 };
    let d = ImuData::from_dmp(a, g, [10, 11, 12, 13]);
    assert_eq!(d.accel, a);
    assert_eq!(d.gyro, g);
    assert_eq!(d.quat, [10, 12, 12, 13]);
}

#[test]
fn task_lifecycle() {
    let mut t = ImuTask::new();
    assert_eq!(
        t.status(),
        Status::new(DEFAULT_ACCEL_CALIBRATION, DEFAULT_GYRO_CALIBRATION)
    );
    let p = t.on_initialized();
    assert_eq!(p[0], 1);
    assert_eq!(t.status().status, ImuStatus::Ready);

    assert_eq!(t.on_command(ImuCommand::NoOp), None);
    assert_eq!(t.status().status, ImuStatus::Ready);

    let p = t.on_command(ImuCommand::Calibrate).unwrap();
    assert_eq!(p[0], 2);
    assert_eq!(t.status().status, ImuStatus::Calibrating);
    assert_eq!(t.on_sample(), SampleStep { send: false, log: false });

    let p = t.on_calibrated([1, 2, 3], [4, 5, 6]);
    assert_eq!(t.status(), Status { status: ImuStatus::Ready, accel: [1, 2, 3], gyro: [4, 5, 6] });
    assert_eq!(Status::from_le_bytes(&p), t.status());
}

#[test]
fn log_every_thousand_and_one_samples() {
    let mut t = ImuTask::new();
    for _ in 0..5000 {
        assert_eq!(t.on_sample(), SampleStep { send: false, log: false });
    }
    t.on_initialized();
    let mut logs = Vec::new();
    for k in 1..=3003u32 {
        let step = t.on_sample();
        assert!(step.send);
        if step.log {
            logs.push(k);
        }
    }
    assert_eq!(logs, vec![1001, 2002, 3003]);
}
