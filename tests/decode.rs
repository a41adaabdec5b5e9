use motion_sensors::decode::{decode_events, decode_record, RECORD_SIZE};
use motion_sensors::event::{
    Quaternion, SensorAccuracy, SensorEvent, SensorType, SensorValues, Vector3,
};

fn record(type_code: i32, timestamp: i64, data: &[f32], status: Option<i8>) -> Vec<u8> {
    let mut r = vec![0u8; RECORD_SIZE];
    r[0..4].copy_from_slice(&(RECORD_SIZE as i32).to_le_bytes());
    r[8..12].copy_from_slice(&type_code.to_le_bytes());
    r[16..24].copy_from_slice(&timestamp.to_le_bytes());
    for (i, v) in data.iter().enumerate() {
        r[24 + 4 * i..28 + 4 * i].copy_from_slice(&v.to_bits().to_le_bytes());
    }
    if let Some(s) = status {
        r[36] = s as u8;
    }
    r
}

fn vec3(x: f32, y: f32, z: f32) -> SensorValues {
    SensorValues::Vec3(Vector3 { x: x.to_bits(), y: y.to_bits(), z: z.to_bits() })
}

#[test]
fn type_codes_are_the_platform_codes() {
    assert_eq!(SensorType::Accelerometer.code(), ndk_sys::ASENSOR_TYPE_LINEAR_ACCELERATION as i32);
    assert_eq!(SensorType::Gyroscope.code(), ndk_sys::ASENSOR_TYPE_GYROSCOPE as i32);
    assert_eq!(SensorType::Rotation.code(), ndk_sys::ASENSOR_TYPE_ROTATION_VECTOR as i32);
    assert_eq!(
        SensorType::Compass.code(),
        ndk_sys::ASENSOR_TYPE_GEOMAGNETIC_ROTATION_VECTOR as i32
    );
    assert_eq!(SensorType::Gravity.code(), ndk_sys::ASENSOR_TYPE_GRAVITY as i32);
    assert_eq!(SensorType::AdditionalInfo.code(), ndk_sys::ASENSOR_TYPE_ADDITIONAL_INFO as i32);
    assert_eq!(SensorType::Unavailable.code(), 0);
    for t in [
        SensorType::Accelerometer,
        SensorType::Gyroscope,
        SensorType::Rotation,
        SensorType::Compass,
        SensorType::Gravity,
        SensorType::AdditionalInfo,
        SensorType::Unavailable,
    ] {
        assert_eq!(SensorType::from_code(t.code()), Some(t));
    }
    assert_eq!(SensorType::from_code(ndk_sys::ASENSOR_TYPE_ACCELEROMETER as i32), None);
    assert_eq!(SensorType::from_code(-1), None);
}

#[test]
fn status_codes_map_to_accuracy() {
    assert_eq!(SensorAccuracy::from_status(ndk_sys::ASENSOR_STATUS_ACCURACY_HIGH as i8), SensorAccuracy::High);
    assert_eq!(SensorAccuracy::from_status(ndk_sys::ASENSOR_STATUS_ACCURACY_MEDIUM as i8), SensorAccuracy::Medium);
    assert_eq!(SensorAccuracy::from_status(ndk_sys::ASENSOR_STATUS_ACCURACY_LOW as i8), SensorAccuracy::Low);
    assert_eq!(SensorAccuracy::from_status(ndk_sys::ASENSOR_STATUS_UNRELIABLE as i8), SensorAccuracy::Unreliable);
    assert_eq!(SensorAccuracy::from_status(ndk_sys::ASENSOR_STATUS_NO_CONTACT as i8), SensorAccuracy::NoContact);
    assert_eq!(SensorAccuracy::from_status(7), SensorAccuracy::Unreliable);
    assert_eq!(SensorAccuracy::from_status(-100), SensorAccuracy::Unreliable);
}

#[test]
fn record_layout_matches_the_platform_struct() {
    assert_eq!(RECORD_SIZE, std::mem::size_of::<ndk_sys::ASensorEvent>());
}

#[test]
fn decodes_a_vector_record() {
    let r = record(10, 123_456_789_012, &[0.5, -9.8, 1.25], Some(3));
    assert_eq!(
        decode_record(&r),
        Some(SensorEvent {
            accuracy: SensorAccuracy::High,
            sensor_type: SensorType::Accelerometer,
            timestamp: 123_456_789_012,
            values: vec3(0.5, -9.8, 1.25),
        })
    );
}

#[test]
fn decodes_negative_timestamp_and_no_contact() {
    let r = record(4, -5, &[1.0, 2.0, 3.0], Some(-1));
    let e = decode_record(&r).unwrap();
    assert_eq!(e.timestamp, -5);
    assert_eq!(e.accuracy, SensorAccuracy::NoContact);
    assert_eq!(e.sensor_type, SensorType::Gyroscope);
    assert_eq!(e.values.vec3(), Some(&Vector3 { x: 1.0f32.to_bits(), y: 2.0f32.to_bits(), z: 3.0f32.to_bits() }));
}

#[test]
fn decodes_an_orientation_record_with_four_components() {
    let r = record(11, 7, &[0.0, 0.0, 0.5, 1.0], None);
    let e = decode_record(&r).unwrap();
    assert_eq!(e.sensor_type, SensorType::Rotation);
    assert_eq!(
        e.values,
        SensorValues::Quat(Quaternion {
            x: 0.0f32.to_bits(),
            y: 0.0f32.to_bits(),
            z: 0.5f32.to_bits(),
            w: 1.0f32.to_bits(),
        })
    );
    assert_eq!(e.values.vec3(), None);
    // The status byte shares its place with the low byte of the fourth component.
    assert_eq!(e.accuracy, SensorAccuracy::from_status(r[36] as i8));
    let c = decode_record(&record(20, 7, &[0.1, 0.2, 0.3, 0.4], None)).unwrap();
    assert_eq!(c.sensor_type, SensorType::Compass);
    assert!(matches!(c.values, SensorValues::Quat(_)));
}

#[test]
fn gravity_is_a_vector() {
    let e = decode_record(&record(9, 1, &[0.0, 9.81, 0.0], Some(2))).unwrap();
    assert_eq!(e.sensor_type, SensorType::Gravity);
    assert_eq!(e.accuracy, SensorAccuracy::Medium);
    assert_eq!(e.values, vec3(0.0, 9.81, 0.0));
}

#[test]
fn ignored_and_unknown_types_decode_to_nothing() {
    assert_eq!(decode_record(&record(33, 1, &[1.0, 1.0, 1.0], Some(3))), None);
    assert_eq!(decode_record(&record(0, 1, &[1.0, 1.0, 1.0], Some(3))), None);
    assert_eq!(decode_record(&record(1, 1, &[1.0, 1.0, 1.0], Some(3))), None);
    assert_eq!(decode_record(&record(12345, 1, &[1.0, 1.0, 1.0], Some(3))), None);
}

#[test]
fn a_record_of_the_wrong_size_is_refused() {
    let r = record(10, 1, &[1.0, 1.0, 1.0], Some(3));
    assert_eq!(decode_record(&r[..RECORD_SIZE - 1]), None);
    let mut longer = r.clone();
    longer.push(0);
    assert_eq!(decode_record(&longer), None);
    assert_eq!(decode_record(&[]), None);
}

#[test]
fn unknown_record_is_dropped_and_the_rest_decoded() {
    let mut bytes = Vec::new();
    bytes.extend(record(10, 20_000_000, &[0.0, 1.0, 0.0], Some(3)));
    bytes.extend(record(999, 30_000_000, &[5.0, 5.0, 5.0], Some(3)));
    bytes.extend(record(4, 40_000_000, &[0.0, 0.0, 2.0], Some(1)));
    bytes.extend(record(33, 50_000_000, &[5.0, 5.0, 5.0], Some(3)));
    bytes.extend(record(20, 60_000_000, &[0.1, 0.2, 0.3, 0.4], None));
    let events = decode_events(&bytes);
    assert_eq!(events.len(), 3);
    assert_eq!(events[0].sensor_type, SensorType::Accelerometer);
    assert_eq!(events[0].timestamp, 20_000_000);
    assert_eq!(events[1].sensor_type, SensorType::Gyroscope);
    assert_eq!(events[1].accuracy, SensorAccuracy::Low);
    assert_eq!(events[1].values, vec3(0.0, 0.0, 2.0));
    assert_eq!(events[2].sensor_type, SensorType::Compass);
    assert_eq!(events[2].timestamp, 60_000_000);
}

#[test]
fn trailing_partial_record_is_ignored() {
    let mut bytes = record(10, 20_000_000, &[0.0, 1.0, 0.0], Some(3));
    bytes.extend(&record(4, 40_000_000, &[0.0, 0.0, 2.0], Some(1))[..50]);
    let events = decode_events(&bytes);
    assert_eq!(events.len(), 1);
    assert!(decode_events(&[]).is_empty());
}
