//! A bounded history of one sensor's samples, debounced and smoothed on insert.
//!
//! The newest entry is at the tail and the oldest at the head. An incoming
//! sample is accepted only when it comes at least `MIN_DELTA_TIME` after the
//! current latest entry; an accepted sample is stored with its components
//! blended against the latest entry's. The blend itself (a one-pole low-pass
//! on single-precision components) is supplied by the caller, one component at
//! a time, on bit patterns.
use vstd::prelude::*;
use vstd::math::min;
use crate::event::{default_event, SensorEvent, SensorValues, Vector3, Quaternion};

verus! {

/// Requested interval between hardware samples, in microseconds (50 Hz).
pub const SAMPLING_PERIOD_US: i32 = 20_000;

/// Shortest accepted spacing between stored samples, in nanoseconds: the
/// sampling period times one thousand.
pub const MIN_DELTA_TIME: i64 = 20_000_000;

/// Number of entries each tracked sensor keeps.
pub const DEFAULT_CAPACITY: usize = 5;

#[derive(Clone, Copy, Debug, PartialEq, Eq, Structural)]
pub enum SeriesError {
    /// The requested offset is not below the capacity.
    OutOfRange,
    /// The offset is below the capacity, but the history has not grown that
    /// far since it was created.
    NotYetAvailable,
}

/// Whether `event` comes late enough after `latest` to be stored.
pub open spec fn accepts(latest: SensorEvent, event: SensorEvent) -> bool {
    event.timestamp - latest.timestamp >= MIN_DELTA_TIME
}

/// Whether consecutive entries are at least `MIN_DELTA_TIME` apart.
pub open spec fn spaced(s: Seq<SensorEvent>) -> bool {
    forall|i: int|
        #![trigger s[i], s[i + 1]]
        0 <= i < s.len() - 1 ==> s[i + 1].timestamp - s[i].timestamp >= MIN_DELTA_TIME
}

/// The entry that an insert into `s` removes: the head, when `s` is full.
pub open spec fn evicted_by(s: Seq<SensorEvent>, cap: nat) -> Option<SensorEvent> {
    if s.len() >= cap {
        Some(s[0])
    } else {
        None
    }
}

/// What remains of `s` once an insert has made room.
pub open spec fn kept_after_eviction(s: Seq<SensorEvent>, cap: nat) -> Seq<SensorEvent> {
    if s.len() >= cap {
        s.drop_first()
    } else {
        s
    }
}

/// Whether `stored` is `incoming` blended against `latest`: component by
/// component through `blend` when both have the same shape, `incoming`
/// unchanged otherwise.
pub open spec fn blended<F: Fn(u32, u32) -> u32>(
    blend: F,
    latest: SensorValues,
    incoming: SensorValues,
    stored: SensorValues,
) -> bool {
    match (latest, incoming) {
        (SensorValues::Vec3(p), SensorValues::Vec3(q)) => match stored {
            SensorValues::Vec3(r) => {
                &&& blend.ensures((p.x, q.x), r.x)
                &&& blend.ensures((p.y, q.y), r.y)
                &&& blend.ensures((p.z, q.z), r.z)
            },
            SensorValues::Quat(_) => false,
        },
        (SensorValues::Quat(p), SensorValues::Quat(q)) => match stored {
            SensorValues::Quat(r) => {
                &&& blend.ensures((p.x, q.x), r.x)
                &&& blend.ensures((p.y, q.y), r.y)
                &&& blend.ensures((p.z, q.z), r.z)
                &&& blend.ensures((p.w, q.w), r.w)
            },
            SensorValues::Vec3(_) => false,
        },
        _ => stored == incoming,
    }
}

/// Whether `stored` is `incoming` with its values smoothed against `latest`
/// and every other field unchanged.
pub open spec fn smoothed<F: Fn(u32, u32) -> u32>(
    blend: F,
    latest: SensorEvent,
    incoming: SensorEvent,
    stored: SensorEvent,
) -> bool {
    &&& stored.accuracy == incoming.accuracy
    &&& stored.sensor_type == incoming.sensor_type
    &&& stored.timestamp == incoming.timestamp
    &&& blended(blend, latest.values, incoming.values, stored.values)
}

/// The outcome of inserting `event` into the history `s` of capacity `cap`:
/// the head leaves when `s` is full, and `event`, smoothed, joins the tail when
/// it comes late enough after the latest entry.
pub open spec fn add_outcome<F: Fn(u32, u32) -> u32>(
    blend: F,
    s: Seq<SensorEvent>,
    cap: nat,
    event: SensorEvent,
    after: Seq<SensorEvent>,
    evicted: Option<SensorEvent>,
) -> bool {
    let kept = kept_after_eviction(s, cap);
    &&& evicted == evicted_by(s, cap)
    &&& if accepts(s.last(), event) {
        &&& after.len() == kept.len() + 1
        &&& after.drop_last() == kept
        &&& smoothed(blend, s.last(), event, after.last())
    } else {
        after == kept
    }
}

/// Whether `s` can be the content of a history of capacity `cap`.
pub open spec fn valid_history(s: Seq<SensorEvent>, cap: nat) -> bool {
    &&& 2 <= cap
    &&& 1 <= s.len() <= cap
    &&& spaced(s)
}

/// The `k`-th most recent entry of `s` (the latest for `k == 0`).
pub open spec fn t_minus_of(s: Seq<SensorEvent>, cap: nat, k: int) -> Result<SensorEvent, SeriesError> {
    if k >= cap {
        Err(SeriesError::OutOfRange)
    } else if k >= s.len() {
        Err(SeriesError::NotYetAvailable)
    } else {
        Ok(s[s.len() - 1 - k])
    }
}

#[derive(Debug)]
pub struct SensorDataSeries {
    series: std::collections::VecDeque<SensorEvent>,
    size: usize,
}

impl SensorDataSeries {
    /// The entries, oldest first.
    pub closed spec fn view(&self) -> Seq<SensorEvent> {
        self.series@
    }

    pub closed spec fn capacity(&self) -> nat {
        self.size as nat
    }

    pub open spec fn wf(&self) -> bool {
        valid_history(self@, self.capacity())
    }

    /// A history of `size` entries holding the placeholder entry alone.
    pub fn new(size: usize) -> (r: SensorDataSeries)
        requires
            2 <= size,
        ensures
            r.wf(),
            r.capacity() == size,
            r@ == seq![default_event()],
    {
        let mut series = std::collections::VecDeque::new();
        series.push_back(SensorEvent::default());
        SensorDataSeries { series, size }
    }

    pub fn size(&self) -> (r: usize)
        ensures
            r == self.capacity(),
    {
        self.size
    }

    pub fn len(&self) -> (r: usize)
        ensures
            r == self@.len(),
    {
        self.series.len()
    }

    /// Inserts a sample; returns the entry that made room for it, if the
    /// history was full. A sample that comes too soon after the latest entry is
    /// dropped (the head still leaves a full history). `blend` computes one
    /// stored component from the latest entry's and the incoming sample's.
    pub fn add<F: Fn(u32, u32) -> u32>(&mut self, sensor_event: SensorEvent, blend: &F) -> (r:
        Option<SensorEvent>)
        requires
            old(self).wf(),
            forall|a: u32, b: u32| blend.requires((a, b)),
        ensures
            final(self).wf(),
            final(self).capacity() == old(self).capacity(),
            add_outcome(*blend, old(self)@, old(self).capacity(), sensor_event, final(self)@, r),
    {
        let ghost s = self@;
        let mut expired_data = None;
        if self.series.len() >= self.size {
            expired_data = self.series.pop_front();
        }
        let ghost kept = self.series@;
        proof {
            lemma_kept_spaced(s, self.size as nat);
        }
        let n = self.series.len();
        let latest = self.series[n - 1];
        assert(latest == s.last());
        if sensor_event.timestamp as i128 - latest.timestamp as i128 >= MIN_DELTA_TIME as i128 {
            let values = blend_values(latest.values, sensor_event.values, blend);
            let stored = SensorEvent {
                accuracy: sensor_event.accuracy,
                sensor_type: sensor_event.sensor_type,
                timestamp: sensor_event.timestamp,
                values,
            };
            self.series.push_back(stored);
            proof {
                lemma_push_spaced(kept, stored);
                assert(self.series@.drop_last() =~= kept);
            }
        }
        expired_data
    }

    /// The `index`-th most recent entry (the latest for `index == 0`).
    pub fn t_minus(&self, index: usize) -> (r: Result<&SensorEvent, SeriesError>)
        requires
            self.wf(),
        ensures
            match r {
                Ok(e) => t_minus_of(self@, self.capacity(), index as int) == Ok::<
                    SensorEvent,
                    SeriesError,
                >(*e),
                Err(x) => t_minus_of(self@, self.capacity(), index as int) == Err::<
                    SensorEvent,
                    SeriesError,
                >(x),
            },
    {
        if index >= self.size {
            return Err(SeriesError::OutOfRange);
        } else if index >= self.series.len() {
            return Err(SeriesError::NotYetAvailable);
        }
        Ok(&self.series[self.series.len() - index - 1])
    }

    /// The newest entry.
    pub fn latest(&self) -> (r: Option<&SensorEvent>)
        requires
            self.wf(),
        ensures
            r matches Some(e) && *e == self@.last(),
    {
        Some(&self.series[self.series.len() - 1])
    }

    /// The oldest entry.
    pub fn oldest(&self) -> (r: Option<&SensorEvent>)
        requires
            self.wf(),
        ensures
            r matches Some(e) && *e == self@[0],
    {
        Some(&self.series[0])
    }
}

proof fn lemma_kept_spaced(s: Seq<SensorEvent>, cap: nat)
    requires
        valid_history(s, cap),
    ensures
        spaced(kept_after_eviction(s, cap)),
        kept_after_eviction(s, cap).len() >= 1,
        kept_after_eviction(s, cap).last() == s.last(),
{
    let k = kept_after_eviction(s, cap);
    if s.len() >= cap {
        assert forall|i: int| 0 <= i < k.len() - 1 implies #[trigger] k[i + 1].timestamp
            - k[i].timestamp >= MIN_DELTA_TIME by {
            assert(k[i] == s[i + 1]);
            assert(k[i + 1] == s[i + 2]);
        }
    }
}

proof fn lemma_push_spaced(k: Seq<SensorEvent>, x: SensorEvent)
    requires
        spaced(k),
        k.len() >= 1,
        x.timestamp - k.last().timestamp >= MIN_DELTA_TIME,
    ensures
        spaced(k.push(x)),
{
    let t = k.push(x);
    assert forall|i: int| 0 <= i < t.len() - 1 implies #[trigger] t[i + 1].timestamp
        - t[i].timestamp >= MIN_DELTA_TIME by {
        assert(t[i] == k[i]);
        if i + 1 < k.len() {
            assert(t[i + 1] == k[i + 1]);
        }
    }
}

/// An insert keeps a history valid.
pub proof fn lemma_add_keeps_valid<F: Fn(u32, u32) -> u32>(
    blend: F,
    s: Seq<SensorEvent>,
    cap: nat,
    event: SensorEvent,
    after: Seq<SensorEvent>,
    evicted: Option<SensorEvent>,
)
    requires
        valid_history(s, cap),
        add_outcome(blend, s, cap, event, after, evicted),
    ensures
        valid_history(after, cap),
{
    let kept = kept_after_eviction(s, cap);
    lemma_kept_spaced(s, cap);
    if accepts(s.last(), event) {
        assert(after =~= kept.push(after.last()));
        lemma_push_spaced(kept, after.last());
    }
}

proof fn lemma_run_prefix<F: Fn(u32, u32) -> u32>(
    blend: F,
    cap: nat,
    events: Seq<SensorEvent>,
    states: Seq<Seq<SensorEvent>>,
    evicted: Seq<Option<SensorEvent>>,
    n: int,
)
    requires
        2 <= cap,
        states.len() == events.len() + 1,
        evicted.len() == events.len(),
        states[0] == seq![default_event()],
        forall|i: int|
            0 <= i < events.len() ==> add_outcome(
                blend,
                #[trigger] states[i],
                cap,
                events[i],
                states[i + 1],
                evicted[i],
            ),
        0 <= n < states.len(),
    ensures
        valid_history(states[n], cap),
        (forall|i: int| 0 <= i < n ==> accepts((#[trigger] states[i]).last(), events[i]))
            ==> states[n].len() == min(cap as int, n + 1),
    decreases n,
{
    if n > 0 {
        lemma_run_prefix(blend, cap, events, states, evicted, n - 1);
        assert(add_outcome(blend, states[n - 1], cap, events[n - 1], states[n], evicted[n - 1]));
        lemma_add_keeps_valid(blend, states[n - 1], cap, events[n - 1], states[n], evicted[n - 1]);
    }
}

/// Over any run of inserts into a fresh history, every state is a valid
/// history, so its length never exceeds the capacity; and when every insert
/// is accepted, the length after the `k`-th insert is the smaller of the
/// capacity and `k + 1` (the placeholder entry counting as the first).
pub proof fn lemma_bounded_capacity<F: Fn(u32, u32) -> u32>(
    blend: F,
    cap: nat,
    events: Seq<SensorEvent>,
    states: Seq<Seq<SensorEvent>>,
    evicted: Seq<Option<SensorEvent>>,
)
    requires
        2 <= cap,
        states.len() == events.len() + 1,
        evicted.len() == events.len(),
        states[0] == seq![default_event()],
        forall|i: int|
            0 <= i < events.len() ==> add_outcome(
                blend,
                #[trigger] states[i],
                cap,
                events[i],
                states[i + 1],
                evicted[i],
            ),
    ensures
        forall|k: int| 0 <= k < states.len() ==> (#[trigger] states[k]).len() <= cap,
        (forall|i: int| 0 <= i < events.len() ==> accepts((#[trigger] states[i]).last(), events[i]))
            ==> forall|k: int|
            0 <= k < states.len() ==> (#[trigger] states[k]).len() == min(cap as int, k + 1),
{
    assert forall|k: int| 0 <= k < states.len() implies (#[trigger] states[k]).len() <= cap by {
        lemma_run_prefix(blend, cap, events, states, evicted, k);
    }
    if forall|i: int| 0 <= i < events.len() ==> accepts((#[trigger] states[i]).last(), events[i]) {
        assert forall|k: int| 0 <= k < states.len() implies (#[trigger] states[k]).len() == min(
            cap as int,
            k + 1,
        ) by {
            lemma_run_prefix(blend, cap, events, states, evicted, k);
        }
    }
}

/// Of two samples closer together than `MIN_DELTA_TIME`, the second is
/// dropped: the latest entry stays the first sample's, and a history that was
/// not full is left exactly as it was.
pub proof fn lemma_debounce<F: Fn(u32, u32) -> u32>(
    blend: F,
    cap: nat,
    s0: Seq<SensorEvent>,
    first: SensorEvent,
    s1: Seq<SensorEvent>,
    evicted1: Option<SensorEvent>,
    second: SensorEvent,
    s2: Seq<SensorEvent>,
    evicted2: Option<SensorEvent>,
)
    requires
        valid_history(s0, cap),
        accepts(s0.last(), first),
        add_outcome(blend, s0, cap, first, s1, evicted1),
        add_outcome(blend, s1, cap, second, s2, evicted2),
        second.timestamp - first.timestamp < MIN_DELTA_TIME,
    ensures
        !accepts(s1.last(), second),
        s1.last().timestamp == first.timestamp,
        s2.last() == s1.last(),
        s1.len() < cap ==> s2 == s1 && evicted2 is None,
{
    lemma_add_keeps_valid(blend, s0, cap, first, s1, evicted1);
    lemma_kept_spaced(s1, cap);
}

/// Offset 0 is the latest entry; in a full history offset `cap - 1` is the
/// oldest; every offset at or past the capacity is out of range.
pub proof fn lemma_indexing(s: Seq<SensorEvent>, cap: nat, k: int)
    requires
        valid_history(s, cap),
    ensures
        t_minus_of(s, cap, 0) == Ok::<SensorEvent, SeriesError>(s.last()),
        s.len() == cap ==> t_minus_of(s, cap, cap - 1) == Ok::<SensorEvent, SeriesError>(s[0]),
        k >= cap ==> t_minus_of(s, cap, k) == Err::<SensorEvent, SeriesError>(
            SeriesError::OutOfRange,
        ),
{
}

/// An insert into a full history hands back the previous head, and the entry
/// that was second oldest becomes the head.
pub proof fn lemma_eviction<F: Fn(u32, u32) -> u32>(
    blend: F,
    s: Seq<SensorEvent>,
    cap: nat,
    event: SensorEvent,
    after: Seq<SensorEvent>,
    evicted: Option<SensorEvent>,
)
    requires
        valid_history(s, cap),
        s.len() == cap,
        add_outcome(blend, s, cap, event, after, evicted),
    ensures
        evicted == Some(s[0]),
        after.len() >= 1,
        after[0] == s[1],
{
    let kept = kept_after_eviction(s, cap);
    assert(kept[0] == s[1]);
    if accepts(s.last(), event) {
        assert(after.drop_last()[0] == after[0]);
    }
}

fn blend_values<F: Fn(u32, u32) -> u32>(latest: SensorValues, incoming: SensorValues, blend: &F) -> (r:
    SensorValues)
    requires
        forall|a: u32, b: u32| blend.requires((a, b)),
    ensures
        blended(*blend, latest, incoming, r),
{
    match (latest, incoming) {
        (SensorValues::Vec3(p), SensorValues::Vec3(q)) => SensorValues::Vec3(
            Vector3 { x: blend(p.x, q.x), y: blend(p.y, q.y), z: blend(p.z, q.z) },
        ),
        (SensorValues::Quat(p), SensorValues::Quat(q)) => SensorValues::Quat(
            Quaternion {
                x: blend(p.x, q.x),
                y: blend(p.y, q.y),
                z: blend(p.z, q.z),
                w: blend(p.w, q.w),
            },
        ),
        _ => incoming,
    }
}

} // verus!
