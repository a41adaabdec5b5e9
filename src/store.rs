//! One history per tracked sensor type, and the routing of events into them.
use vstd::prelude::*;
use crate::decode::{decode_events, decoded_events};
use crate::event::{default_event, SensorEvent, SensorType};
use crate::series::{
    accepts, add_outcome, evicted_by, kept_after_eviction, lemma_add_keeps_valid, SensorDataSeries,
    DEFAULT_CAPACITY,
};

verus! {

/// Whether every entry of `s` is a three-component sample.
pub open spec fn holds_vectors(s: Seq<SensorEvent>) -> bool {
    forall|i: int| 0 <= i < s.len() ==> (#[trigger] s[i]).values is Vec3
}

/// `after` is `before` with `event` inserted.
pub open spec fn routed<F: Fn(u32, u32) -> u32>(
    blend: F,
    before: SensorDataSeries,
    event: SensorEvent,
    after: SensorDataSeries,
) -> bool {
    &&& after.capacity() == before.capacity()
    &&& add_outcome(blend, before@, before.capacity(), event, after@, evicted_by(before@, before.capacity()))
}

pub open spec fn unchanged(before: SensorDataSeries, after: SensorDataSeries) -> bool {
    after@ == before@ && after.capacity() == before.capacity()
}

/// The history kept for type `t` takes `event` if it is of type `t`, and is
/// left alone otherwise.
pub open spec fn series_step<F: Fn(u32, u32) -> u32>(
    blend: F,
    t: SensorType,
    before: SensorDataSeries,
    event: SensorEvent,
    after: SensorDataSeries,
) -> bool {
    if event.sensor_type == t {
        routed(blend, before, event, after)
    } else {
        unchanged(before, after)
    }
}

#[derive(Debug)]
pub struct SensorData {
    pub accelerometer: SensorDataSeries,
    pub gyroscope: SensorDataSeries,
    pub rotation: SensorDataSeries,
    pub compass: SensorDataSeries,
    pub gravity: SensorDataSeries,
}

/// `after` is `before` once `event` has gone to the history of its type;
/// events of the untracked types change nothing.
pub open spec fn dispatched<F: Fn(u32, u32) -> u32>(
    blend: F,
    before: SensorData,
    event: SensorEvent,
    after: SensorData,
) -> bool {
    &&& series_step(blend, SensorType::Accelerometer, before.accelerometer, event, after.accelerometer)
    &&& series_step(blend, SensorType::Gyroscope, before.gyroscope, event, after.gyroscope)
    &&& series_step(blend, SensorType::Rotation, before.rotation, event, after.rotation)
    &&& series_step(blend, SensorType::Compass, before.compass, event, after.compass)
    &&& series_step(blend, SensorType::Gravity, before.gravity, event, after.gravity)
}

/// `trace` runs from one store to the next through the events in order.
pub open spec fn dispatch_trace<F: Fn(u32, u32) -> u32>(
    blend: F,
    events: Seq<SensorEvent>,
    trace: Seq<SensorData>,
) -> bool {
    &&& trace.len() == events.len() + 1
    &&& forall|i: int|
        0 <= i < events.len() ==> dispatched(blend, #[trigger] trace[i], events[i], trace[i + 1])
}

proof fn lemma_routed_keeps_vectors<F: Fn(u32, u32) -> u32>(
    blend: F,
    before: SensorDataSeries,
    event: SensorEvent,
    after: SensorDataSeries,
)
    requires
        before.wf(),
        holds_vectors(before@),
        event.values is Vec3,
        routed(blend, before, event, after),
    ensures
        after.wf(),
        holds_vectors(after@),
{
    let s = before@;
    let kept = kept_after_eviction(s, before.capacity());
    lemma_add_keeps_valid(blend, s, before.capacity(), event, after@, evicted_by(s, before.capacity()));
    assert forall|i: int| 0 <= i < after@.len() implies (#[trigger] after@[i]).values is Vec3 by {
        if i < kept.len() {
            if accepts(s.last(), event) {
                assert(after@.drop_last()[i] == after@[i]);
            }
            if s.len() >= before.capacity() {
                assert(kept[i] == s[i + 1]);
            }
        } else {
            assert(s.last().values is Vec3);
        }
    }
}

impl SensorData {
    pub open spec fn wf(&self) -> bool {
        &&& self.accelerometer.wf()
        &&& self.gyroscope.wf()
        &&& self.rotation.wf()
        &&& self.compass.wf()
        &&& self.gravity.wf()
        &&& holds_vectors(self.accelerometer@)
    }

    /// Sends `event` to the history of its type.
    pub fn add_event<F: Fn(u32, u32) -> u32>(&mut self, event: SensorEvent, blend: &F)
        requires
            old(self).wf(),
            event.well_shaped(),
            forall|a: u32, b: u32| blend.requires((a, b)),
        ensures
            final(self).wf(),
            dispatched(*blend, *old(self), event, *final(self)),
    {
        match event.sensor_type {
            SensorType::Accelerometer => {
                let ghost before = self.accelerometer;
                self.accelerometer.add(event, blend);
                proof {
                    lemma_routed_keeps_vectors(*blend, before, event, self.accelerometer);
                }
            },
            SensorType::Gyroscope => {
                self.gyroscope.add(event, blend);
            },
            SensorType::Rotation => {
                self.rotation.add(event, blend);
            },
            SensorType::Compass => {
                self.compass.add(event, blend);
            },
            SensorType::Gravity => {
                self.gravity.add(event, blend);
            },
            _ => {},
        }
    }

    /// Sends each event, in order, to the history of its type.
    pub fn add_events<F: Fn(u32, u32) -> u32>(&mut self, events: &Vec<SensorEvent>, blend: &F)
        requires
            old(self).wf(),
            forall|i: int| 0 <= i < events@.len() ==> (#[trigger] events@[i]).well_shaped(),
            forall|a: u32, b: u32| blend.requires((a, b)),
        ensures
            final(self).wf(),
            exists|trace: Seq<SensorData>|
                {
                    &&& dispatch_trace(*blend, events@, trace)
                    &&& trace[0] == *old(self)
                    &&& trace.last() == *final(self)
                },
    {
        let ghost mut trace: Seq<SensorData> = seq![*self];
        let mut i: usize = 0;
        while i < events.len()
            invariant
                self.wf(),
                i <= events@.len(),
                forall|j: int| 0 <= j < events@.len() ==> (#[trigger] events@[j]).well_shaped(),
                forall|a: u32, b: u32| blend.requires((a, b)),
                trace.len() == i + 1,
                trace[0] == *old(self),
                trace.last() == *self,
                forall|j: int|
                    0 <= j < i ==> dispatched(*blend, #[trigger] trace[j], events@[j], trace[j + 1]),
            decreases events@.len() - i,
        {
            self.add_event(events[i], blend);
            proof {
                let prev = trace;
                trace = trace.push(*self);
                assert forall|j: int| 0 <= j < i + 1 implies dispatched(
                    *blend,
                    #[trigger] trace[j],
                    events@[j],
                    trace[j + 1],
                ) by {
                    if j < i {
                        assert(trace[j] == prev[j]);
                        assert(trace[j + 1] == prev[j + 1]);
                    }
                }
            }
            i = i + 1;
        }
        assert(dispatch_trace(*blend, events@, trace));
    }
}

/// Whether `s` is a history of the default capacity holding the placeholder
/// entry alone.
pub open spec fn fresh(s: SensorDataSeries) -> bool {
    s@ == seq![default_event()] && s.capacity() == DEFAULT_CAPACITY
}

impl Default for SensorData {
    fn default() -> (r: SensorData)
        ensures
            r.wf(),
            fresh(r.accelerometer),
            fresh(r.gyroscope),
            fresh(r.rotation),
            fresh(r.compass),
            fresh(r.gravity),
    {
        SensorData {
            accelerometer: SensorDataSeries::new(DEFAULT_CAPACITY),
            gyroscope: SensorDataSeries::new(DEFAULT_CAPACITY),
            rotation: SensorDataSeries::new(DEFAULT_CAPACITY),
            compass: SensorDataSeries::new(DEFAULT_CAPACITY),
            gravity: SensorDataSeries::new(DEFAULT_CAPACITY),
        }
    }
}

/// Decodes a run of raw records and sends the events of tracked types, in
/// order, to their histories; records of any other type leave no trace.
pub fn update_sensor_data<F: Fn(u32, u32) -> u32>(
    sensor_data: &mut SensorData,
    records: &[u8],
    blend: &F,
)
    requires
        old(sensor_data).wf(),
        forall|a: u32, b: u32| blend.requires((a, b)),
    ensures
        final(sensor_data).wf(),
        exists|trace: Seq<SensorData>|
            {
                &&& dispatch_trace(*blend, decoded_events(records@), trace)
                &&& trace[0] == *old(sensor_data)
                &&& trace.last() == *final(sensor_data)
            },
{
    let events = decode_events(records);
    sensor_data.add_events(&events, blend);
}

} // verus!
