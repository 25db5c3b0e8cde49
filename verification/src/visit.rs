//! Visit events and their binary encoding.
//!
//! A visit event records one successful redirect: the key that was followed
//! and the moment it happened, as seconds and sub-second nanoseconds since
//! the Unix epoch.  Before transport the event is serialized into a
//! protocol-buffer wire image: a task message whose single member, field 1,
//! is a record with the key in field 1 (a string) and the timestamp in
//! field 2 (a nested message of two varint fields).  Fields equal to their
//! default are omitted, as wire encoders conventionally do.

use vstd::prelude::*;
use vstd::utf8::encode_utf8;

verus! {

/// A record of one successful redirect.
pub struct VisitEvent {
    /// The key whose mapping was followed.
    pub tag: String,
    /// Seconds since the Unix epoch at the moment of the redirect.
    pub seconds: i64,
    /// Sub-second nanoseconds of that moment.
    pub nanos: i32,
}

/// The base-128 varint encoding of a number: seven bits per byte, least
/// significant group first, the high bit marking continuation.
pub open spec fn varint(n: nat) -> Seq<u8>
    decreases n,
{
    if n < 0x80 {
        seq![n as u8]
    } else {
        seq![(0x80 + n % 0x80) as u8] + varint(n / 0x80)
    }
}

/// The wire image of the timestamp message: seconds in field 1, nanoseconds
/// in field 2, both varints of the value read as a 64-bit two's complement,
/// zero fields omitted.
pub open spec fn timestamp_encoding(seconds: i64, nanos: i32) -> Seq<u8> {
    (if seconds != 0 {
        seq![8u8] + varint((seconds as u64) as nat)
    } else {
        Seq::<u8>::empty()
    }) + (if nanos != 0 {
        seq![16u8] + varint(((nanos as i64) as u64) as nat)
    } else {
        Seq::<u8>::empty()
    })
}

/// The wire image of the visit record: the key's UTF-8 bytes as a
/// length-delimited field 1 (omitted when empty), the timestamp as a
/// length-delimited field 2.
pub open spec fn record_encoding(tag: Seq<char>, seconds: i64, nanos: i32) -> Seq<u8> {
    let tag_bytes = encode_utf8(tag);
    let ts = timestamp_encoding(seconds, nanos);
    (if tag_bytes.len() != 0 {
        seq![10u8] + varint(tag_bytes.len() as nat) + tag_bytes
    } else {
        Seq::<u8>::empty()
    }) + seq![18u8] + varint(ts.len() as nat) + ts
}

/// The wire image of a whole visit-event task: the record as a
/// length-delimited field 1 of the surrounding task message.
pub open spec fn task_encoding(tag: Seq<char>, seconds: i64, nanos: i32) -> Seq<u8> {
    let record = record_encoding(tag, seconds, nanos);
    seq![10u8] + varint(record.len() as nat) + record
}

/// Appends the varint encoding of `n` to `out`.
pub fn encode_varint(n: u64, out: &mut Vec<u8>)
    ensures
        final(out)@ == old(out)@ + varint(n as nat),
{
    let mut rest = n;
    while rest >= 0x80
        invariant
            out@ + varint(rest as nat) == old(out)@ + varint(n as nat),
        decreases rest,
    {
        out.push((0x80 + (rest % 0x80)) as u8);
        rest = rest / 0x80;
        proof {
            assert(out@ + varint(rest as nat) =~= old(out)@ + varint(n as nat));
        }
    }
    out.push(rest as u8);
    proof {
        assert(out@ =~= old(out)@ + varint(n as nat));
    }
}

/// Appends one varint field (tag byte, then the value) to `out`.
fn encode_varint_field(tag_byte: u8, value: u64, out: &mut Vec<u8>)
    ensures
        final(out)@ == old(out)@ + seq![tag_byte] + varint(value as nat),
{
    out.push(tag_byte);
    encode_varint(value, out);
    proof {
        assert(out@ =~= old(out)@ + seq![tag_byte] + varint(value as nat));
    }
}

/// Serializes the timestamp message of a visit event.
fn encode_timestamp(seconds: i64, nanos: i32) -> (r: Vec<u8>)
    ensures
        r@ == timestamp_encoding(seconds, nanos),
{
    let mut out: Vec<u8> = Vec::new();
    if seconds != 0 {
        encode_varint_field(8, seconds as u64, &mut out);
    }
    if nanos != 0 {
        encode_varint_field(16, (nanos as i64) as u64, &mut out);
    }
    proof {
        assert(out@ =~= timestamp_encoding(seconds, nanos));
    }
    out
}

/// Serializes a visit event into its task wire image.
pub fn encode_visit_event(event: &VisitEvent) -> (r: Vec<u8>)
    ensures
        r@ == task_encoding(event.tag@, event.seconds, event.nanos),
{
    let mut ts = encode_timestamp(event.seconds, event.nanos);
    let mut record: Vec<u8> = Vec::new();
    let mut tag_bytes = event.tag.as_str().as_bytes_vec();
    if tag_bytes.len() != 0 {
        record.push(10);
        encode_varint(tag_bytes.len() as u64, &mut record);
        record.append(&mut tag_bytes);
    }
    record.push(18);
    encode_varint(ts.len() as u64, &mut record);
    record.append(&mut ts);
    proof {
        assert(record@ =~= record_encoding(event.tag@, event.seconds, event.nanos));
    }
    let mut out: Vec<u8> = Vec::new();
    out.push(10);
    encode_varint(record.len() as u64, &mut out);
    out.append(&mut record);
    proof {
        assert(out@ =~= task_encoding(event.tag@, event.seconds, event.nanos));
    }
    out
}

} // verus!
