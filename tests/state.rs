use motion_sensors::event::{SensorAccuracy, SensorEvent, SensorType, SensorValues, Vector3};
use motion_sensors::series::SensorDataSeries;
use motion_sensors::state::{integration_step, IntegrationStep, VelocityStep};

fn keep_incoming(_latest: u32, incoming: u32) -> u32 {
    incoming
}

fn v(x: f32, y: f32, z: f32) -> Vector3 {
    Vector3 { x: x.to_bits(), y: y.to_bits(), z: z.to_bits() }
}

fn accel(timestamp: i64, value: Vector3) -> SensorEvent {
    SensorEvent {
        accuracy: SensorAccuracy::High,
        sensor_type: SensorType::Accelerometer,
        timestamp,
        values: SensorValues::Vec3(value),
    }
}

fn f(b: u32) -> f32 {
    f32::from_bits(b)
}

/// The arithmetic that the integration step describes, in single precision.
fn apply(step: &IntegrationStep, velocity: &mut [f32; 3], position: &mut [f32; 3]) {
    let before = *velocity;
    if let Some(s) = step.velocity {
        let a = [f(s.current.x) + f(s.previous.x), f(s.current.y) + f(s.previous.y), f(s.current.z) + f(s.previous.z)];
        for i in 0..3 {
            velocity[i] += a[i] * (s.elapsed_ns as f32) * 1e-9 * 0.5;
        }
    }
    if let Some(dt) = step.position_elapsed_ns {
        for i in 0..3 {
            position[i] += (before[i] + velocity[i]) * (dt as f32) * 1e-9 * 0.25;
        }
    }
}

#[test]
fn nothing_to_integrate_on_a_fresh_history() {
    let s = SensorDataSeries::new(5);
    assert_eq!(integration_step(&s), IntegrationStep { velocity: None, position_elapsed_ns: None });
}

#[test]
fn integration_scenario() {
    // Constant (0, 9.8, 0) at 0, 20 ms and 40 ms, already filtered; one tick
    // after each sample. The sample at 0 ns is no later than the placeholder
    // entry and is dropped by the debounce.
    let g = v(0.0, 9.8, 0.0);
    let mut s = SensorDataSeries::new(5);
    let mut velocity = [0.0f32; 3];
    let mut position = [0.0f32; 3];

    s.add(accel(0, g), &keep_incoming);
    let step = integration_step(&s);
    assert_eq!(step, IntegrationStep { velocity: None, position_elapsed_ns: None });
    apply(&step, &mut velocity, &mut position);

    s.add(accel(20_000_000, g), &keep_incoming);
    let step = integration_step(&s);
    assert_eq!(
        step,
        IntegrationStep {
            velocity: Some(VelocityStep { current: g, previous: v(0.0, 0.0, 0.0), elapsed_ns: 20_000_000 }),
            position_elapsed_ns: None,
        }
    );
    apply(&step, &mut velocity, &mut position);
    // (9.8 + 0) * 0.02 * 0.5
    assert!((velocity[1] - 0.098).abs() < 1e-6);
    assert_eq!(position, [0.0; 3]);

    s.add(accel(40_000_000, g), &keep_incoming);
    let step = integration_step(&s);
    assert_eq!(
        step,
        IntegrationStep {
            velocity: Some(VelocityStep { current: g, previous: g, elapsed_ns: 20_000_000 }),
            position_elapsed_ns: Some(40_000_000),
        }
    );
    apply(&step, &mut velocity, &mut position);
    // 0.098 + (9.8 + 9.8) * 0.02 * 0.5
    assert!((velocity[1] - 0.294).abs() < 1e-6);
    // (0.098 + 0.294) * 0.04 * 0.25
    assert!((position[1] - 0.00392).abs() < 1e-7);
    assert_eq!(velocity[0], 0.0);
    assert_eq!(position[2], 0.0);
}

#[test]
fn full_history_uses_the_three_newest() {
    let mut s = SensorDataSeries::new(3);
    for k in 1..=5i64 {
        s.add(accel(k * 25_000_000, v(k as f32, 0.0, 0.0)), &keep_incoming);
    }
    let step = integration_step(&s);
    assert_eq!(
        step,
        IntegrationStep {
            velocity: Some(VelocityStep {
                current: v(5.0, 0.0, 0.0),
                previous: v(4.0, 0.0, 0.0),
                elapsed_ns: 25_000_000,
            }),
            position_elapsed_ns: Some(50_000_000),
        }
    );
}

#[test]
fn spans_over_the_whole_timestamp_range() {
    let mut s = SensorDataSeries::new(3);
    s.add(accel(i64::MAX, v(1.0, 0.0, 0.0)), &keep_incoming);
    let step = integration_step(&s);
    assert_eq!(step.velocity.unwrap().elapsed_ns, i64::MAX as u64);
}
