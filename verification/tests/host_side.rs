use skiboot::host::{
    classify_notification, command_packet, find_characteristic, is_skiboot, is_skiboot_name,
    CalibrationWatch, Notification,
};
use skiboot::imu_conf::{ImuCommand, ImuStatus};
use skiboot::uuids::{IMU_CONF_CHAR_UUID, IMU_DATA_CHAR_UUID, IMU_STATUS_CHAR_UUID, MOTION_SERVICE_UUID};

#[test]
fn skiboot_names() {
    assert!(is_skiboot_name("SkiBoot Slave"));
    assert!(is_skiboot_name("My SkiBoot"));
    assert!(is_skiboot_name("SkiBoot"));
    assert!(!is_skiboot_name("skiboot"));
    assert!(!is_skiboot_name("SkiBoo"));
    assert!(!is_skiboot_name(""));
    assert!(is_skiboot(&Some("SkiBoot Slave".to_string())));
    assert!(!is_skiboot(&None));
}

#[test]
fn find_characteristics() {
    let uuids = [MOTION_SERVICE_UUID, IMU_DATA_CHAR_UUID, IMU_CONF_CHAR_UUID, IMU_DATA_CHAR_UUID];
    assert_eq!(find_characteristic(&uuids, IMU_DATA_CHAR_UUID), Some(1));
    assert_eq!(find_characteristic(&uuids, IMU_CONF_CHAR_UUID), Some(2));
    assert_eq!(find_characteristic(&uuids, IMU_STATUS_CHAR_UUID), None);
    assert_eq!(find_characteristic(&[], IMU_STATUS_CHAR_UUID), None);
}

#[test]
fn classify() {
    assert_eq!(classify_notification(IMU_DATA_CHAR_UUID), Notification::ImuData);
    assert_eq!(classify_notification(IMU_STATUS_CHAR_UUID), Notification::Status);
    assert_eq!(classify_notification(IMU_CONF_CHAR_UUID), Notification::Other);
}

#[test]
fn calibrate_command_bytes() {
    assert_eq!(command_packet(ImuCommand::Calibrate), [1, 0, 0, 0, 0, 0, 0, 0]);
    assert_eq!(command_packet(ImuCommand::NoOp), [0; 8]);
}

#[test]
fn calibration_watch_sequence() {
    let mut w = CalibrationWatch::new();
    assert_eq!(w.status_count(), -2);
    w.on_imu_data();
    assert_eq!(w.status_count(), -2);
    w.on_status(ImuStatus::Ready);
    assert_eq!(w.status_count(), -2);
    w.on_status(ImuStatus::Calibrating);
    assert_eq!(w.status_count(), -1);
    w.on_imu_data();
    assert_eq!(w.status_count(), -1);
    w.on_status(ImuStatus::Ready);
    assert_eq!(w.status_count(), 0);
    w.on_imu_data();
    w.on_imu_data();
    assert_eq!(w.status_count(), 2);
    w.on_status(ImuStatus::Ready);
    assert_eq!(w.status_count(), 2);
    w.on_status(ImuStatus::Initializing);
    assert_eq!(w.status_count(), 2);
    w.on_status(ImuStatus::Calibrating);
    assert_eq!(w.status_count(), -1);
}

#[test]
fn host_calibrate_write_reaches_sensor_queue() {
    let packet = command_packet(ImuCommand::Calibrate);
    let out = skiboot::imu::handle_write_events(12, &packet, 12);
    assert!(out.handled);
    assert_eq!(out.queued, Some(ImuCommand::Calibrate));
}
