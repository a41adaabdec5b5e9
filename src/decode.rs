//! Decoding of the platform's fixed-layout sensor event records.
//!
//! A record is 104 bytes in the platform's (little-endian) memory layout: the
//! type code is an `i32` at offset 8, the timestamp an `i64` at offset 16, and
//! the payload starts at offset 24 with up to sixteen single-precision
//! components. The accuracy status is the `i8` that follows the first three
//! payload components, at offset 36. The type code is checked before any
//! payload byte is read.
use vstd::prelude::*;
use crate::event::{
    accuracy_of_status, is_orientation_type, type_of_code, Quaternion, SensorAccuracy, SensorEvent,
    SensorType, SensorValues, Vector3,
};

verus! {

pub const RECORD_SIZE: usize = 104;
pub const TYPE_OFFSET: usize = 8;
pub const TIMESTAMP_OFFSET: usize = 16;
pub const PAYLOAD_OFFSET: usize = 24;
pub const STATUS_OFFSET: usize = 36;

/// The little-endian unsigned 32-bit word at `i`.
pub open spec fn u32_at(b: Seq<u8>, i: int) -> u32 {
    (b[i] + 0x100 * b[i + 1] + 0x1_0000 * b[i + 2] + 0x100_0000 * b[i + 3]) as u32
}

/// The little-endian two's-complement 32-bit integer at `i`.
pub open spec fn i32_at(b: Seq<u8>, i: int) -> i32 {
    let u = u32_at(b, i) as int;
    (if u >= 0x8000_0000 { u - 0x1_0000_0000 } else { u }) as i32
}

/// The little-endian two's-complement 64-bit integer at `i`.
pub open spec fn i64_at(b: Seq<u8>, i: int) -> i64 {
    let u = u32_at(b, i) + 0x1_0000_0000 * u32_at(b, i + 4);
    (if u >= 0x8000_0000_0000_0000 { u - 0x1_0000_0000_0000_0000 } else { u }) as i64
}

/// The two's-complement byte at `i`.
pub open spec fn i8_at(b: Seq<u8>, i: int) -> i8 {
    (if b[i] >= 0x80 { b[i] - 0x100 } else { b[i] as int }) as i8
}

/// The sensor types that records are decoded for; the others are recognised
/// and ignored.
pub open spec fn is_tracked_type(t: SensorType) -> bool {
    t != SensorType::AdditionalInfo && t != SensorType::Unavailable
}

/// The payload of a record starting at `s`, in the shape that type `t` calls for.
pub open spec fn payload_at(b: Seq<u8>, s: int, t: SensorType) -> SensorValues {
    let p = s + PAYLOAD_OFFSET;
    if is_orientation_type(t) {
        SensorValues::Quat(
            Quaternion {
                x: u32_at(b, p),
                y: u32_at(b, p + 4),
                z: u32_at(b, p + 8),
                w: u32_at(b, p + 12),
            },
        )
    } else {
        SensorValues::Vec3(Vector3 { x: u32_at(b, p), y: u32_at(b, p + 4), z: u32_at(b, p + 8) })
    }
}

/// The event that the record starting at `s` describes, if its type is tracked.
pub open spec fn record_at(b: Seq<u8>, s: int) -> Option<SensorEvent> {
    match type_of_code(i32_at(b, s + TYPE_OFFSET)) {
        Some(t) => if is_tracked_type(t) {
            Some(
                SensorEvent {
                    accuracy: accuracy_of_status(i8_at(b, s + STATUS_OFFSET)),
                    sensor_type: t,
                    timestamp: i64_at(b, s + TIMESTAMP_OFFSET),
                    values: payload_at(b, s, t),
                },
            )
        } else {
            None
        },
        None => None,
    }
}

pub open spec fn option_seq(o: Option<SensorEvent>) -> Seq<SensorEvent> {
    match o {
        Some(e) => seq![e],
        None => Seq::empty(),
    }
}

/// The events of a run of whole records, in order; trailing bytes too few for
/// a record are ignored.
pub open spec fn decoded_events(b: Seq<u8>) -> Seq<SensorEvent>
    decreases b.len(),
{
    if b.len() < RECORD_SIZE {
        Seq::empty()
    } else {
        option_seq(record_at(b, 0)) + decoded_events(b.skip(RECORD_SIZE as int))
    }
}

fn read_u32(b: &[u8], i: usize) -> (r: u32)
    requires
        i + 4 <= b.len(),
    ensures
        r == u32_at(b@, i as int),
{
    b[i] as u32 + 0x100 * (b[i + 1] as u32) + 0x1_0000 * (b[i + 2] as u32) + 0x100_0000 * (
    b[i + 3] as u32)
}

fn read_i32(b: &[u8], i: usize) -> (r: i32)
    requires
        i + 4 <= b.len(),
    ensures
        r == i32_at(b@, i as int),
{
    let u = read_u32(b, i);
    if u >= 0x8000_0000 {
        (u as i64 - 0x1_0000_0000) as i32
    } else {
        u as i32
    }
}

fn read_i64(b: &[u8], i: usize) -> (r: i64)
    requires
        i + 8 <= b.len(),
    ensures
        r == i64_at(b@, i as int),
{
    let u = read_u32(b, i) as i128 + 0x1_0000_0000 * (read_u32(b, i + 4) as i128);
    if u >= 0x8000_0000_0000_0000 {
        (u - 0x1_0000_0000_0000_0000) as i64
    } else {
        u as i64
    }
}

fn read_i8(b: &[u8], i: usize) -> (r: i8)
    requires
        i < b.len(),
    ensures
        r == i8_at(b@, i as int),
{
    let v = b[i];
    if v >= 0x80 {
        (v as i16 - 0x100) as i8
    } else {
        v as i8
    }
}

fn decode_at(b: &[u8], s: usize) -> (r: Option<SensorEvent>)
    requires
        s + RECORD_SIZE <= b.len(),
    ensures
        r == record_at(b@, s as int),
        r matches Some(e) ==> e.well_shaped(),
{
    let code = read_i32(b, s + TYPE_OFFSET);
    match SensorType::from_code(code) {
        Some(t) => {
            if t == SensorType::AdditionalInfo || t == SensorType::Unavailable {
                return None;
            }
            let p = s + PAYLOAD_OFFSET;
            let values = if t.is_orientation() {
                SensorValues::Quat(
                    Quaternion {
                        x: read_u32(b, p),
                        y: read_u32(b, p + 4),
                        z: read_u32(b, p + 8),
                        w: read_u32(b, p + 12),
                    },
                )
            } else {
                SensorValues::Vec3(
                    Vector3 { x: read_u32(b, p), y: read_u32(b, p + 4), z: read_u32(b, p + 8) },
                )
            };
            Some(
                SensorEvent {
                    accuracy: SensorAccuracy::from_status(read_i8(b, s + STATUS_OFFSET)),
                    sensor_type: t,
                    timestamp: read_i64(b, s + TIMESTAMP_OFFSET),
                    values,
                },
            )
        },
        None => None,
    }
}

/// Decodes one record; `None` when the record does not have the record size
/// or its type is not one of the tracked sensor types.
pub fn decode_record(record: &[u8]) -> (r: Option<SensorEvent>)
    ensures
        r == (if record@.len() == RECORD_SIZE {
            record_at(record@, 0)
        } else {
            None
        }),
        r matches Some(e) ==> e.well_shaped(),
{
    if record.len() != RECORD_SIZE {
        return None;
    }
    decode_at(record, 0)
}

/// Decodes a run of records laid end to end, keeping the events of tracked
/// types in their order and skipping the records of every other type.
pub fn decode_events(records: &[u8]) -> (r: Vec<SensorEvent>)
    ensures
        r@ == decoded_events(records@),
        forall|i: int| 0 <= i < r@.len() ==> (#[trigger] r@[i]).well_shaped(),
{
    let mut out: Vec<SensorEvent> = Vec::new();
    let mut pos: usize = 0;
    assert(records@.skip(0) =~= records@);
    while records.len() - pos >= RECORD_SIZE
        invariant
            pos <= records.len(),
            out@ + decoded_events(records@.skip(pos as int)) == decoded_events(records@),
            forall|i: int| 0 <= i < out@.len() ==> (#[trigger] out@[i]).well_shaped(),
        decreases records@.len() - pos,
    {
        let ghost rest = records@.skip(pos as int);
        assert(rest.skip(RECORD_SIZE as int) =~= records@.skip(pos + RECORD_SIZE));
        assert(record_at(rest, 0) == record_at(records@, pos as int));
        let e = decode_at(records, pos);
        let ghost before = out@;
        if let Some(ev) = e {
            out.push(ev);
        }
        assert(out@ + decoded_events(records@.skip(pos + RECORD_SIZE)) =~= before
            + decoded_events(rest));
        pos = pos + RECORD_SIZE;
    }
    assert(decoded_events(records@.skip(pos as int)) =~= Seq::empty());
    assert(out@ =~= out@ + Seq::<SensorEvent>::empty());
    out
}

/// Decoding a run of whole records followed by more bytes yields the events
/// of the first run followed by those of the rest.
pub proof fn lemma_decoded_events_concat(a: Seq<u8>, b: Seq<u8>)
    requires
        a.len() as int % RECORD_SIZE as int == 0,
    ensures
        decoded_events(a + b) == decoded_events(a) + decoded_events(b),
    decreases a.len(),
{
    if a.len() == 0 {
        assert(a + b =~= b);
        assert(decoded_events(a) + decoded_events(b) =~= decoded_events(b));
    } else {
        let n = RECORD_SIZE as int;
        assert(a.len() >= n);
        assert(a.skip(n).len() as int % n == 0);
        assert((a + b).skip(n) =~= a.skip(n) + b);
        assert(record_at(a + b, 0) == record_at(a, 0));
        lemma_decoded_events_concat(a.skip(n), b);
        assert(decoded_events(a + b) =~= decoded_events(a) + decoded_events(b));
    }
}

/// A record whose type code names no sensor type is dropped without a trace:
/// the records around it decode exactly as if it were absent.
pub proof fn lemma_unrecognized_record_skipped(before: Seq<u8>, record: Seq<u8>, after: Seq<u8>)
    requires
        before.len() as int % RECORD_SIZE as int == 0,
        record.len() == RECORD_SIZE,
        type_of_code(i32_at(record, TYPE_OFFSET as int)) is None,
    ensures
        decoded_events(before + record + after) == decoded_events(before) + decoded_events(after),
{
    let n = RECORD_SIZE as int;
    let tail = record + after;
    assert(before + record + after =~= before + tail);
    lemma_decoded_events_concat(before, tail);
    assert(i32_at(tail, TYPE_OFFSET as int) == i32_at(record, TYPE_OFFSET as int));
    assert(record_at(tail, 0) is None);
    assert(tail.skip(n) =~= after);
    assert(decoded_events(tail) =~= decoded_events(after));
}

} // verus!
