use ruka::frame::{decode_flex, decode_imu, SensorFrame};

#[test]
fn flex_payload_decodes_five_words() {
    let data = [0x00, 0x01, 0x00, 0x02, 0x00, 0x03, 0x00, 0x04, 0x00, 0x05];
    assert_eq!(decode_flex(&data), Some([1, 2, 3, 4, 5]));
}

#[test]
fn flex_payload_high_byte_first() {
    let data = [0x12, 0x34, 0xff, 0xff, 0x00, 0x00, 0x80, 0x00, 0x01, 0x00];
    assert_eq!(decode_flex(&data), Some([0x1234, 0xffff, 0, 0x8000, 0x0100]));
}

#[test]
fn flex_payload_of_wrong_length_is_ignored() {
    assert_eq!(decode_flex(&[0u8; 9]), None);
    assert_eq!(decode_flex(&[0u8; 11]), None);
    assert_eq!(decode_flex(&[]), None);
}

#[test]
fn staging_short_flex_payload_keeps_prior_fingers() {
    let mut frame = SensorFrame::new();
    frame.stage_flex(&[0, 10, 0, 20, 0, 30, 0, 40, 0, 50]);
    frame.stage_flex(&[0, 1, 0, 2, 0, 3, 0, 4, 0]);
    assert_eq!(frame.fingers, [10, 20, 30, 40, 50]);
    assert_eq!(frame.imu, [0; 6]);
}

#[test]
fn imu_negative_value_decodes() {
    let mut data = [0u8; 12];
    data[0] = 0xFF;
    data[1] = 0x6A;
    let v = decode_imu(&data).unwrap();
    assert_eq!(v[0], -150);
    assert_eq!(v[0] as f32 / 100.0, -1.5);
    assert_eq!(&v[1..], &[0; 5]);
}

#[test]
fn imu_values_round_trip_both_signs() {
    let values: [i16; 6] = [-150, 150, 981, -981, i16::MIN, i16::MAX];
    let mut data = Vec::new();
    for v in values.iter() {
        data.extend_from_slice(&v.to_be_bytes());
    }
    assert_eq!(decode_imu(&data), Some(values));
    assert_eq!(values[2] as f32 / 100.0, 9.81);
}

#[test]
fn imu_payload_of_wrong_length_is_ignored() {
    assert_eq!(decode_imu(&[0u8; 10]), None);
    assert_eq!(decode_imu(&[0u8; 13]), None);
    let mut frame = SensorFrame::new();
    frame.stage_imu(&[0, 0, 0, 1, 0, 2, 0, 3, 0, 4, 0, 5]);
    frame.stage_imu(&[1, 2, 3]);
    assert_eq!(frame.imu, [0, 1, 2, 3, 4, 5]);
}
