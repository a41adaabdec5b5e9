//! What each tick of dead reckoning integrates.
//!
//! Velocity moves by the trapezoid between the two newest acceleration
//! samples, once there are two; position moves by the trapezoid between the
//! velocities before and after that step, over the span of the three newest
//! samples, once there are three. This module picks the samples and spans; the
//! single-precision arithmetic on them is left to the caller.
use vstd::prelude::*;
use crate::event::{SensorEvent, SensorValues, Vector3};
use crate::series::{t_minus_of, SensorDataSeries};
use crate::store::holds_vectors;

verus! {

/// Inputs of the velocity update: `velocity += (current + previous) * elapsed * 0.5`.
#[derive(Clone, Copy, Debug, PartialEq, Eq, Structural)]
pub struct VelocityStep {
    pub current: Vector3,
    pub previous: Vector3,
    /// Nanoseconds between the two samples.
    pub elapsed_ns: u64,
}

/// What one tick integrates. The position update is
/// `position += (velocity_before + velocity_after) * position_elapsed * 0.25`.
#[derive(Clone, Copy, Debug, PartialEq, Eq, Structural)]
pub struct IntegrationStep {
    pub velocity: Option<VelocityStep>,
    /// Nanoseconds between the newest sample and the one two before it.
    pub position_elapsed_ns: Option<u64>,
}

pub open spec fn vector_of(e: SensorEvent) -> Vector3 {
    match e.values {
        SensorValues::Vec3(v) => v,
        SensorValues::Quat(q) => Vector3 { x: q.x, y: q.y, z: q.z },
    }
}

/// The integration that the acceleration history `s` of capacity `cap` calls for.
pub open spec fn integration_of(s: Seq<SensorEvent>, cap: nat) -> IntegrationStep {
    IntegrationStep {
        velocity: match (t_minus_of(s, cap, 0), t_minus_of(s, cap, 1)) {
            (Ok(now), Ok(before)) => Some(
                VelocityStep {
                    current: vector_of(now),
                    previous: vector_of(before),
                    elapsed_ns: (now.timestamp - before.timestamp) as u64,
                },
            ),
            _ => None,
        },
        position_elapsed_ns: match (t_minus_of(s, cap, 0), t_minus_of(s, cap, 2)) {
            (Ok(now), Ok(earlier)) => Some((now.timestamp - earlier.timestamp) as u64),
            _ => None,
        },
    }
}

fn elapsed(later: i64, earlier: i64) -> (r: u64)
    requires
        later >= earlier,
    ensures
        r == later - earlier,
{
    (later as i128 - earlier as i128) as u64
}

/// Picks the samples and spans that this tick integrates from the
/// acceleration history.
pub fn integration_step(accelerometer: &SensorDataSeries) -> (r: IntegrationStep)
    requires
        accelerometer.wf(),
        holds_vectors(accelerometer@),
    ensures
        r == integration_of(accelerometer@, accelerometer.capacity()),
        r.position_elapsed_ns is Some ==> r.velocity is Some,
{
    let ghost s = accelerometer@;
    let accel_t = accelerometer.latest().unwrap();
    let current = *accel_t.values.vec3().unwrap();
    let velocity = match accelerometer.t_minus(1) {
        Ok(accel_t_minus_1) => {
            let ghost i = s.len() - 2;
            assert(s[i + 1].timestamp - s[i].timestamp >= 0);
            Some(
                VelocityStep {
                    current,
                    previous: *accel_t_minus_1.values.vec3().unwrap(),
                    elapsed_ns: elapsed(accel_t.timestamp, accel_t_minus_1.timestamp),
                },
            )
        },
        Err(_) => None,
    };
    let position_elapsed_ns = match accelerometer.t_minus(2) {
        Ok(accel_t_minus_2) => {
            let ghost i = s.len() - 3;
            assert(s[i + 1].timestamp - s[i].timestamp >= 0);
            assert(s[i + 2].timestamp - s[i + 1].timestamp >= 0);
            Some(elapsed(accel_t.timestamp, accel_t_minus_2.timestamp))
        },
        Err(_) => None,
    };
    IntegrationStep { velocity, position_elapsed_ns }
}

} // verus!
