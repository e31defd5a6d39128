use skiboot::codec::{ByteSize, FromBytesLe, ImuData, ToBytesLe, Tri};

#[test]
fn i16_encodes_little_endian() {
    let mut buf = [0xAAu8; 4];
    let n = (-3399i16).to_bytes_le(&mut buf);
    assert_eq!(n, 2);
    assert_eq!(buf, [0xB9, 0xF2, 0xAA, 0xAA]);
    assert_eq!(<i16 as FromBytesLe>::from_le_bytes(&buf), -3399);
}

#[test]
fn i16_extremes_roundtrip() {
    for v in [i16::MIN, -1, 0, 1, i16::MAX] {
        let mut buf = [0u8; 2];
        v.to_bytes_le(&mut buf);
        assert_eq!(buf, v.to_le_bytes());
        assert_eq!(<i16 as FromBytesLe>::from_le_bytes(&buf), v);
    }
}

#[test]
fn u32_matches_f32_wire_bytes() {
    for f in [1.0f32, -2.5, 0.0, f32::MAX, f32::MIN_POSITIVE] {
        let mut buf = [0u8; 4];
        f.to_bits().to_bytes_le(&mut buf);
        assert_eq!(buf, f.to_le_bytes());
        assert_eq!(f32::from_bits(<u32 as FromBytesLe>::from_le_bytes(&buf)), f);
    }
}

#[test]
fn u32_encodes_one_point_zero() {
    let mut buf = [0u8; 4];
    0x3F80_0000u32.to_bytes_le(&mut buf);
    assert_eq!(buf, [0x00, 0x00, 0x80, 0x3F]);
}

#[test]
fn try_from_le_bytes_short_input_is_none() {
    assert_eq!(<i16 as FromBytesLe>::try_from_le_bytes(&[1]), None);
    assert_eq!(<u32 as FromBytesLe>::try_from_le_bytes(&[1, 2, 3]), None);
    assert_eq!(Tri::try_from_le_bytes(&[0u8; 11]), None);
    assert_eq!(ImuData::try_from_le_bytes(&[0u8; 39]), None);
}

#[test]
fn try_from_le_bytes_reads_front() {
    assert_eq!(<i16 as FromBytesLe>::try_from_le_bytes(&[0x34, 0x12, 0xFF]), Some(0x1234));
    assert_eq!(<u32 as FromBytesLe>::try_from_le_bytes(&[1, 0, 0, 0, 9]), Some(1));
}

#[test]
fn sizes() {
    assert_eq!(<i16 as ByteSize>::SIZE, 2);
    assert_eq!(<u32 as ByteSize>::SIZE, 4);
    assert_eq!(<[i16; 3] as ByteSize>::SIZE, 6);
    assert_eq!(<[u32; 4] as ByteSize>::SIZE, 16);
    assert_eq!(Tri::SIZE, 12);
    assert_eq!(ImuData::SIZE, 40);
}

#[test]
fn i16_triple_layout() {
    let mut buf = [0u8; 6];
    assert_eq!([1i16, -2, 0x0304].to_bytes_le(&mut buf), 6);
    assert_eq!(buf, [1, 0, 0xFE, 0xFF, 4, 3]);
    assert_eq!(<[i16; 3]>::from_le_bytes(&buf), [1, -2, 0x0304]);
}

#[test]
fn u32_quad_layout() {
    let mut buf = [0u8; 16];
    assert_eq!([1u32, 2, 3, 0x0A0B0C0D].to_bytes_le(&mut buf), 16);
    assert_eq!(buf, [1, 0, 0, 0, 2, 0, 0, 0, 3, 0, 0, 0, 0x0D, 0x0C, 0x0B, 0x0A]);
    assert_eq!(<[u32; 4]>::from_le_bytes(&buf), [1, 2, 3, 0x0A0B0C0D]);
}

#[test]
fn tri_layout_and_tail_untouched() {
    let t = Tri { x: 1.0f32.to_bits(), y: 2.0f32.to_bits(), z: (-1.0f32).to_bits() };
    let mut buf = [0x55u8; 14];
    assert_eq!(t.to_bytes_le(&mut buf), 12);
    assert_eq!(&buf[0..4], &1.0f32.to_le_bytes());
    assert_eq!(&buf[4..8], &2.0f32.to_le_bytes());
    assert_eq!(&buf[8..12], &(-1.0f32).to_le_bytes());
    assert_eq!(&buf[12..], &[0x55, 0x55]);
    assert_eq!(Tri::from_le_bytes(&buf), t);
}

#[test]
fn imu_data_roundtrip() {
    let d = ImuData {
        accel: Tri { x: 1, y: 2, z: 3 },
        gyro: Tri { x: 4, y: 5, z: 6 },
        quat: [7, 8, 9, 0xFFFF_FFFF],
    };
    let mut buf = [0u8; 40];
    assert_eq!(d.to_bytes_le(&mut buf), 40);
    assert_eq!(buf[0], 1);
    assert_eq!(buf[12], 4);
    assert_eq!(buf[24], 7);
    assert_eq!(&buf[36..40], &[0xFF, 0xFF, 0xFF, 0xFF]);
    assert_eq!(ImuData::from_le_bytes(&buf), d);
    assert_eq!(ImuData::try_from_le_bytes(&buf), Some(d));
}

#[test]
fn imu_data_bytes_roundtrip() {
    let bytes: Vec<u8> = (0u8..40).map(|i| i.wrapping_mul(37)).collect();
    let d = ImuData::from_le_bytes(&bytes);
    let mut out = [0u8; 40];
    d.to_bytes_le(&mut out);
    assert_eq!(&out[..], &bytes[..]);
}

#[test]
fn empty_array_writes_nothing() {
    let mut buf: [u8; 0] = [];
    let empty: [i16; 0] = [];
    assert_eq!(empty.to_bytes_le(&mut buf), 0);
    assert_eq!(<[i16; 0] as ByteSize>::SIZE, 0);
    let mut buf2 = [7u8; 2];
    let no_tris: [Tri; 0] = [];
    assert_eq!(no_tris.to_bytes_le(&mut buf2), 0);
    assert_eq!(buf2, [7, 7]);
    assert_eq!(<[i16; 0]>::from_le_bytes(&[]), empty);
}

#[test]
fn three_i16_from_longer_input() {
    assert_eq!(
        <[i16; 3] as FromBytesLe>::from_le_bytes(&[0x01, 0x00, 0xFF, 0xFF, 0x00, 0x01, 0x7F]),
        [1i16, -1, 256]
    );
}

#[test]
fn two_f32_patterns_decode() {
    let r = <[u32; 2] as FromBytesLe>::from_le_bytes(&[0x00, 0x00, 0x80, 0x3F, 0x00, 0x00, 0x00, 0xC0]);
    assert_eq!(r.map(f32::from_bits), [1.0f32, -2.0]);
    assert_eq!(<[u32; 2] as ByteSize>::SIZE, 8);
}

#[test]
fn array_of_records_roundtrip() {
    let a = [Tri { x: 1, y: 2, z: 3 }, Tri { x: 4, y: 5, z: 6 }];
    let mut buf = [0xEEu8; 25];
    assert_eq!(a.to_bytes_le(&mut buf), 24);
    assert_eq!(buf[24], 0xEE);
    assert_eq!(buf[12], 4);
    assert_eq!(<[Tri; 2]>::from_le_bytes(&buf), a);
}

#[test]
fn nested_arrays_roundtrip() {
    let a: [[i16; 3]; 2] = [[1, -2, 3], [i16::MIN, 0, i16::MAX]];
    let mut buf = [0u8; 12];
    assert_eq!(a.to_bytes_le(&mut buf), 12);
    assert_eq!(&buf[0..2], &[1, 0]);
    assert_eq!(&buf[6..8], &[0x00, 0x80]);
    assert_eq!(<[[i16; 3]; 2]>::from_le_bytes(&buf), a);
    assert_eq!(<[[i16; 3]; 2]>::try_from_le_bytes(&buf[..11]), None);
}
