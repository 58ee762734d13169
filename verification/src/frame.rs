//! The frame encoder: handshake and log record in their wire layout.
//!
//! Each frame travels as one packet. A handshake is ten bytes: the magic
//! number, the protocol version, the sender's process id and the sinks it
//! asks for. A record frame starts with the length of all that follows it,
//! then holds the priority, the timestamp, the tag, one space and the
//! message.

use crate::priority::LogPriority;
use crate::timestamp::Timestamp;
use crate::wire::{be32, be32_value, lemma_be32_round_trip, push_be32, push_bytes};
use vstd::prelude::*;

verus! {

/// The number that opens every handshake.
pub const CONN_MAGIC: u32 = 0xb05acafe;

/// The protocol version that this client speaks.
pub const PROTOCOL_VERSION: u8 = 1;

/// Sink bit: the daemon writes the records to its local file.
pub const LOCAL_FILE_SINK: u8 = 1;

/// Sink bit: the daemon hands the records to the device's native log.
pub const ANDROID_LOGCAT_SINK: u8 = 2;

/// The byte that parts tag and message.
pub const TAG_DELIMITER: u8 = 0x20;

/// The length of a handshake frame.
pub const HANDSHAKE_LEN: usize = 10;

/// The bytes of a record frame that stand before the tag: length field,
/// priority and timestamp.
pub const RECORD_HEADER_LEN: usize = 14;

/// The handshake frame of a process that asks for the sinks in `sink_type`.
pub open spec fn handshake_frame(pid: u32, sink_type: u8) -> Seq<u8> {
    be32(CONN_MAGIC) + seq![PROTOCOL_VERSION] + be32(pid) + seq![sink_type]
}

/// The number of bytes that follow the length field of a record frame:
/// priority, timestamp, tag, delimiter and message.
pub open spec fn record_payload_len(tag: Seq<u8>, message: Seq<u8>) -> nat {
    1 + 9 + tag.len() + 1 + message.len()
}

/// The length field of a record frame. It has four bytes; of a payload
/// length that does not fit in them it keeps the low 32 bits.
pub open spec fn record_length_field(tag: Seq<u8>, message: Seq<u8>) -> u32 {
    (record_payload_len(tag, message) % 0x1_0000_0000) as u32
}

/// The record frame for one log call.
pub open spec fn log_record_frame(
    priority: LogPriority,
    timestamp: Timestamp,
    tag: Seq<u8>,
    message: Seq<u8>,
) -> Seq<u8> {
    be32(record_length_field(tag, message)) + seq![priority.wire()] + timestamp.wire() + tag
        + seq![TAG_DELIMITER] + message
}

/// Builds the handshake frame.
pub fn encode_handshake(pid: u32, sink_type: u8) -> (frame: Vec<u8>)
    ensures
        frame@ == handshake_frame(pid, sink_type),
        frame@.len() == HANDSHAKE_LEN,
        frame@.subrange(0, 4) == seq![0xb0u8, 0x5a, 0xca, 0xfe],
        frame@[4] == PROTOCOL_VERSION,
        frame@.subrange(5, 9) == be32(pid),
        frame@[9] == sink_type,
{
    let mut frame: Vec<u8> = Vec::with_capacity(HANDSHAKE_LEN);
    push_be32(&mut frame, CONN_MAGIC);
    frame.push(PROTOCOL_VERSION);
    push_be32(&mut frame, pid);
    frame.push(sink_type);
    proof {
        lemma_handshake_layout(pid, sink_type);
        assert(frame@ =~= handshake_frame(pid, sink_type));
    }
    frame
}

/// Builds the record frame for one log call.
pub fn encode_log_record(
    priority: LogPriority,
    timestamp: &Timestamp,
    tag: &[u8],
    message: &[u8],
) -> (frame: Vec<u8>)
    ensures
        frame@ == log_record_frame(priority, *timestamp, tag@, message@),
        frame@.len() == 4 + record_payload_len(tag@, message@),
        frame@.subrange(0, 4) == be32(record_length_field(tag@, message@)),
        record_payload_len(tag@, message@) <= u32::MAX ==> be32_value(frame@)
            == record_payload_len(tag@, message@),
        frame@[4] == priority.wire(),
        frame@.subrange(5, 14) == timestamp.wire(),
        frame@.subrange(14, 14 + tag@.len() as int) == tag@,
        frame@[14 + tag@.len() as int] == TAG_DELIMITER,
        frame@.subrange(15 + tag@.len() as int, frame@.len() as int) == message@,
{
    let payload_len: u128 = 11 + tag.len() as u128 + message.len() as u128;
    let length_field: u32 = (payload_len % 0x1_0000_0000) as u32;
    let mut frame: Vec<u8> = Vec::new();
    push_be32(&mut frame, length_field);
    frame.push(priority.to_wire());
    let stamp = timestamp.to_bytes();
    push_bytes(&mut frame, stamp.as_slice());
    push_bytes(&mut frame, tag);
    frame.push(TAG_DELIMITER);
    push_bytes(&mut frame, message);
    proof {
        lemma_log_record_layout(priority, *timestamp, tag@, message@);
        assert(frame@ =~= log_record_frame(priority, *timestamp, tag@, message@));
    }
    frame
}

/// The layout of a handshake frame: ten bytes, of which the first four spell
/// the magic number whatever the process id and the sinks are.
pub proof fn lemma_handshake_layout(pid: u32, sink_type: u8)
    ensures
        handshake_frame(pid, sink_type).len() == HANDSHAKE_LEN,
        handshake_frame(pid, sink_type).subrange(0, 4) == seq![0xb0u8, 0x5a, 0xca, 0xfe],
        be32_value(handshake_frame(pid, sink_type)) == CONN_MAGIC,
        handshake_frame(pid, sink_type)[4] == PROTOCOL_VERSION,
        handshake_frame(pid, sink_type).subrange(5, 9) == be32(pid),
        handshake_frame(pid, sink_type)[9] == sink_type,
{
    let f = handshake_frame(pid, sink_type);
    assert(f.subrange(0, 4) =~= seq![0xb0u8, 0x5a, 0xca, 0xfe]);
    assert(f.subrange(5, 9) =~= be32(pid));
}

/// The layout of a record frame: the length field counts every byte after
/// itself, and one space stands between tag and message.
pub proof fn lemma_log_record_layout(
    priority: LogPriority,
    timestamp: Timestamp,
    tag: Seq<u8>,
    message: Seq<u8>,
)
    ensures
        ({
            let f = log_record_frame(priority, timestamp, tag, message);
            &&& f.len() == 4 + record_payload_len(tag, message)
            &&& f.subrange(0, 4) == be32(record_length_field(tag, message))
            &&& record_payload_len(tag, message) <= u32::MAX ==> be32_value(f)
                == record_payload_len(tag, message)
            &&& f[4] == priority.wire()
            &&& f.subrange(5, 14) == timestamp.wire()
            &&& f.subrange(14, 14 + tag.len() as int) == tag
            &&& f[14 + tag.len() as int] == TAG_DELIMITER
            &&& f.subrange(15 + tag.len() as int, f.len() as int) == message
        }),
{
    let f = log_record_frame(priority, timestamp, tag, message);
    lemma_be32_round_trip(record_length_field(tag, message));
    assert(timestamp.wire().len() == 9);
    assert(f.subrange(0, 4) =~= be32(record_length_field(tag, message)));
    assert(f.subrange(5, 14) =~= timestamp.wire());
    assert(f.subrange(14, 14 + tag.len() as int) =~= tag);
    assert(f.subrange(15 + tag.len() as int, f.len() as int) =~= message);
}

} // verus!
