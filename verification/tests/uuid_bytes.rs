use skiboot::uuids::{
    ble_uuid_bytes, uuid_bytes_le, BASE_NAMESPACE_UUID, CONTROL_COMMAND_CHAR_UUID,
    MOTION_SERVICE_UUID,
};

#[test]
fn motion_service_ble_bytes() {
    assert_eq!(
        ble_uuid_bytes(MOTION_SERVICE_UUID),
        [0x00, 0x01, 0x00, 0x8c, 0x57, 0x34, 0x47, 0xbc, 0x69, 0x47, 0x7d, 0xba, 0xa9, 0x3c, 0xe4, 0x45]
    );
}

#[test]
fn motion_service_guid_bytes() {
    assert_eq!(
        uuid_bytes_le(MOTION_SERVICE_UUID),
        [0xa9, 0x3c, 0xe4, 0x45, 0x7d, 0xba, 0x69, 0x47, 0xbc, 0x47, 0x34, 0x57, 0x8c, 0x00, 0x01, 0x00]
    );
}

#[test]
fn ble_bytes_are_value_le() {
    for v in [0u128, 1, BASE_NAMESPACE_UUID, CONTROL_COMMAND_CHAR_UUID, u128::MAX] {
        assert_eq!(ble_uuid_bytes(v), v.to_le_bytes());
    }
}

#[test]
fn uuid_strings() {
    assert_eq!(MOTION_SERVICE_UUID, 0x45e43ca9_ba7d_4769_bc47_34578c000100);
}
