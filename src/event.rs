//! Typed sensor events.
//!
//! Sample components are carried as the bit patterns of the IEEE-754
//! single-precision numbers that the hardware delivers; arithmetic on them is
//! the business of whoever supplies the smoothing and integration steps.
use vstd::prelude::*;

verus! {

/// Platform code of a linear-acceleration sensor (gravity removed).
pub const CODE_LINEAR_ACCELERATION: i32 = 10;
/// Platform code of a gyroscope.
pub const CODE_GYROSCOPE: i32 = 4;
/// Platform code of a rotation-vector sensor.
pub const CODE_ROTATION_VECTOR: i32 = 11;
/// Platform code of a geomagnetic rotation-vector sensor.
pub const CODE_GEOMAGNETIC_ROTATION_VECTOR: i32 = 20;
/// Platform code of a gravity sensor.
pub const CODE_GRAVITY: i32 = 9;
/// Platform code of additional-information (metadata) records.
pub const CODE_ADDITIONAL_INFO: i32 = 33;
/// Code of the placeholder type carried by entries that no sensor produced.
pub const CODE_UNAVAILABLE: i32 = 0;

/// Platform accuracy status codes.
pub const STATUS_ACCURACY_HIGH: i8 = 3;
pub const STATUS_ACCURACY_MEDIUM: i8 = 2;
pub const STATUS_ACCURACY_LOW: i8 = 1;
pub const STATUS_UNRELIABLE: i8 = 0;
pub const STATUS_NO_CONTACT: i8 = -1;

#[derive(Clone, Copy, Debug, PartialEq, Eq, Structural)]
pub enum SensorAccuracy {
    High,
    Low,
    Medium,
    NoContact,
    Unreliable,
}

#[derive(Clone, Copy, Debug, PartialEq, Eq, Structural)]
pub enum SensorType {
    Accelerometer,
    Gyroscope,
    Rotation,
    Compass,
    Gravity,
    AdditionalInfo,
    Unavailable,
}

/// The platform code of each sensor type.
pub open spec fn type_code(t: SensorType) -> i32 {
    match t {
        SensorType::Accelerometer => CODE_LINEAR_ACCELERATION,
        SensorType::Gyroscope => CODE_GYROSCOPE,
        SensorType::Rotation => CODE_ROTATION_VECTOR,
        SensorType::Compass => CODE_GEOMAGNETIC_ROTATION_VECTOR,
        SensorType::Gravity => CODE_GRAVITY,
        SensorType::AdditionalInfo => CODE_ADDITIONAL_INFO,
        SensorType::Unavailable => CODE_UNAVAILABLE,
    }
}

/// The sensor type that a platform code names, if any.
pub open spec fn type_of_code(code: i32) -> Option<SensorType> {
    if code == CODE_LINEAR_ACCELERATION {
        Some(SensorType::Accelerometer)
    } else if code == CODE_GYROSCOPE {
        Some(SensorType::Gyroscope)
    } else if code == CODE_ROTATION_VECTOR {
        Some(SensorType::Rotation)
    } else if code == CODE_GEOMAGNETIC_ROTATION_VECTOR {
        Some(SensorType::Compass)
    } else if code == CODE_GRAVITY {
        Some(SensorType::Gravity)
    } else if code == CODE_ADDITIONAL_INFO {
        Some(SensorType::AdditionalInfo)
    } else if code == CODE_UNAVAILABLE {
        Some(SensorType::Unavailable)
    } else {
        None
    }
}

/// The accuracy that a status code reports; unknown codes read as unreliable.
pub open spec fn accuracy_of_status(status: i8) -> SensorAccuracy {
    if status == STATUS_ACCURACY_HIGH {
        SensorAccuracy::High
    } else if status == STATUS_ACCURACY_MEDIUM {
        SensorAccuracy::Medium
    } else if status == STATUS_ACCURACY_LOW {
        SensorAccuracy::Low
    } else if status == STATUS_NO_CONTACT {
        SensorAccuracy::NoContact
    } else {
        SensorAccuracy::Unreliable
    }
}

/// Whether samples of this type are orientations (four components) rather
/// than vectors (three components).
pub open spec fn is_orientation_type(t: SensorType) -> bool {
    t == SensorType::Rotation || t == SensorType::Compass
}

impl SensorType {
    pub fn code(self) -> (r: i32)
        ensures
            r == type_code(self),
    {
        match self {
            SensorType::Accelerometer => CODE_LINEAR_ACCELERATION,
            SensorType::Gyroscope => CODE_GYROSCOPE,
            SensorType::Rotation => CODE_ROTATION_VECTOR,
            SensorType::Compass => CODE_GEOMAGNETIC_ROTATION_VECTOR,
            SensorType::Gravity => CODE_GRAVITY,
            SensorType::AdditionalInfo => CODE_ADDITIONAL_INFO,
            SensorType::Unavailable => CODE_UNAVAILABLE,
        }
    }

    pub fn from_code(code: i32) -> (r: Option<SensorType>)
        ensures
            r == type_of_code(code),
            r matches Some(t) ==> type_code(t) == code,
    {
        if code == CODE_LINEAR_ACCELERATION {
            Some(SensorType::Accelerometer)
        } else if code == CODE_GYROSCOPE {
            Some(SensorType::Gyroscope)
        } else if code == CODE_ROTATION_VECTOR {
            Some(SensorType::Rotation)
        } else if code == CODE_GEOMAGNETIC_ROTATION_VECTOR {
            Some(SensorType::Compass)
        } else if code == CODE_GRAVITY {
            Some(SensorType::Gravity)
        } else if code == CODE_ADDITIONAL_INFO {
            Some(SensorType::AdditionalInfo)
        } else if code == CODE_UNAVAILABLE {
            Some(SensorType::Unavailable)
        } else {
            None
        }
    }

    pub fn is_orientation(self) -> (r: bool)
        ensures
            r == is_orientation_type(self),
    {
        match self {
            SensorType::Rotation | SensorType::Compass => true,
            _ => false,
        }
    }
}

impl SensorAccuracy {
    pub fn from_status(status: i8) -> (r: SensorAccuracy)
        ensures
            r == accuracy_of_status(status),
    {
        if status == STATUS_ACCURACY_HIGH {
            SensorAccuracy::High
        } else if status == STATUS_ACCURACY_MEDIUM {
            SensorAccuracy::Medium
        } else if status == STATUS_ACCURACY_LOW {
            SensorAccuracy::Low
        } else if status == STATUS_NO_CONTACT {
            SensorAccuracy::NoContact
        } else {
            SensorAccuracy::Unreliable
        }
    }
}

/// A three-component sample; each field is the bit pattern of an IEEE-754
/// single-precision component.
#[derive(Clone, Copy, Debug, PartialEq, Eq, Structural)]
pub struct Vector3 {
    pub x: u32,
    pub y: u32,
    pub z: u32,
}

/// A four-component orientation sample; each field is the bit pattern of an
/// IEEE-754 single-precision component.
#[derive(Clone, Copy, Debug, PartialEq, Eq, Structural)]
pub struct Quaternion {
    pub x: u32,
    pub y: u32,
    pub z: u32,
    pub w: u32,
}

#[derive(Clone, Copy, Debug, PartialEq, Eq, Structural)]
pub enum SensorValues {
    Vec3(Vector3),
    Quat(Quaternion),
}

impl SensorValues {
    pub fn vec3(&self) -> (r: Option<&Vector3>)
        ensures
            r == (match *self {
                SensorValues::Vec3(v) => Some(&v),
                SensorValues::Quat(_) => None::<&Vector3>,
            }),
    {
        match self {
            SensorValues::Vec3(data) => Some(data),
            _ => None,
        }
    }
}

/// Bit pattern of a single-precision zero.
pub const ZERO_BITS: u32 = 0;

#[derive(Clone, Copy, Debug, PartialEq, Eq, Structural)]
pub struct SensorEvent {
    pub accuracy: SensorAccuracy,
    pub sensor_type: SensorType,
    /// Nanoseconds on the monotonic hardware clock.
    pub timestamp: i64,
    pub values: SensorValues,
}

/// The placeholder entry that a history holds before any sample arrived.
pub open spec fn default_event() -> SensorEvent {
    SensorEvent {
        accuracy: SensorAccuracy::NoContact,
        sensor_type: SensorType::Unavailable,
        timestamp: 0,
        values: SensorValues::Vec3(Vector3 { x: ZERO_BITS, y: ZERO_BITS, z: ZERO_BITS }),
    }
}

impl SensorEvent {
    /// Whether the shape of the values is the one that the sensor type calls
    /// for: four components for orientations, three otherwise.
    pub open spec fn well_shaped(&self) -> bool {
        if is_orientation_type(self.sensor_type) {
            self.values is Quat
        } else {
            self.values is Vec3
        }
    }
}

impl Default for SensorEvent {
    fn default() -> (r: SensorEvent)
        ensures
            r == default_event(),
    {
        SensorEvent {
            accuracy: SensorAccuracy::NoContact,
            sensor_type: SensorType::Unavailable,
            timestamp: 0,
            values: SensorValues::Vec3(Vector3 { x: ZERO_BITS, y: ZERO_BITS, z: ZERO_BITS }),
        }
    }
}

} // verus!
