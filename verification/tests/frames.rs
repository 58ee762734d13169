use notcat_client::frame::{HANDSHAKE_LEN, RECORD_HEADER_LEN, TAG_DELIMITER};
use notcat_client::{
    encode_handshake, encode_log_record, LogPriority, Timestamp, ANDROID_LOGCAT_SINK, CONN_MAGIC,
    LOCAL_FILE_SINK, PROTOCOL_VERSION,
};

fn sample_timestamp() -> Timestamp {
    Timestamp { year: 2024, month: 5, day: 17, hour: 13, minute: 45, second: 59, millisecond: 678 }
}

fn length_field(frame: &[u8]) -> u32 {
    u32::from_be_bytes([frame[0], frame[1], frame[2], frame[3]])
}

#[test]
fn handshake_has_exact_bytes() {
    let frame = encode_handshake(0x0102_0304, 3);
    assert_eq!(frame, vec![0xb0, 0x5a, 0xca, 0xfe, 1, 1, 2, 3, 4, 3]);
}

#[test]
fn handshake_is_ten_bytes_and_starts_with_magic() {
    for pid in [0u32, 1, 255, 256, 65_535, 65_536, 0x7fff_ffff, u32::MAX] {
        for sink in [0u8, LOCAL_FILE_SINK, ANDROID_LOGCAT_SINK, 3, 0xff] {
            let frame = encode_handshake(pid, sink);
            assert_eq!(frame.len(), 10);
            assert_eq!(frame.len(), HANDSHAKE_LEN);
            assert_eq!(&frame[0..4], &CONN_MAGIC.to_be_bytes());
            assert_eq!(&frame[0..4], &[0xb0, 0x5a, 0xca, 0xfe]);
            assert_eq!(frame[4], PROTOCOL_VERSION);
            assert_eq!(&frame[5..9], &pid.to_be_bytes());
            assert_eq!(frame[9], sink);
        }
    }
}

#[test]
fn protocol_constants() {
    assert_eq!(CONN_MAGIC, 0xb05a_cafe);
    assert_eq!(PROTOCOL_VERSION, 1);
    assert_eq!(LOCAL_FILE_SINK, 1);
    assert_eq!(ANDROID_LOGCAT_SINK, 2);
    assert_eq!(LOCAL_FILE_SINK | ANDROID_LOGCAT_SINK, 3);
    assert_eq!(TAG_DELIMITER, b' ');
    assert_eq!(RECORD_HEADER_LEN, 14);
}

#[test]
fn record_has_exact_bytes() {
    let frame = encode_log_record(LogPriority::Info, &sample_timestamp(), b"TagA", b"hello");
    let expected: Vec<u8> = vec![
        0, 0, 0, 20, // payload length
        2, // Info
        0x07, 0xe8, 5, 17, 13, 45, 59, 0x02, 0xa6, // 2024-05-17 13:45:59.678
        b'T', b'a', b'g', b'A', b' ', b'h', b'e', b'l', b'l', b'o',
    ];
    assert_eq!(frame, expected);
}

#[test]
fn record_length_counts_all_that_follows() {
    let tags: [&[u8]; 4] = [b"", b"T", b"TagA", b"a tag with spaces"];
    let messages: [&[u8]; 4] = [b"", b"m", b"hello", &[0u8, 1, 2, 255, 32, 32]];
    for tag in tags {
        for message in messages {
            let frame = encode_log_record(LogPriority::Warn, &sample_timestamp(), tag, message);
            let expected = 1 + 9 + tag.len() + 1 + message.len();
            assert_eq!(length_field(&frame) as usize, expected);
            assert_eq!(frame.len(), 4 + expected);
            assert_eq!(frame[4 + 1 + 9 + tag.len()], 0x20);
            assert_eq!(frame[4], 3);
            assert_eq!(&frame[14..14 + tag.len()], tag);
            assert_eq!(&frame[15 + tag.len()..], message);
        }
    }
}

#[test]
fn record_of_empty_tag_and_message() {
    let frame = encode_log_record(LogPriority::Verbose, &sample_timestamp(), b"", b"");
    assert_eq!(frame.len(), 15);
    assert_eq!(length_field(&frame), 11);
    assert_eq!(frame[4], 0);
    assert_eq!(frame[14], 0x20);
}

#[test]
fn record_does_not_escape_spaces_in_tag() {
    let frame = encode_log_record(LogPriority::Debug, &sample_timestamp(), b"a b", b"c d");
    assert_eq!(&frame[14..], b"a b c d");
    assert_eq!(length_field(&frame), 17);
}

#[test]
fn record_of_long_message() {
    let message = vec![b'x'; 70_000];
    let frame = encode_log_record(LogPriority::Error, &sample_timestamp(), b"big", &message);
    assert_eq!(length_field(&frame), 70_014);
    assert_eq!(&frame[0..4], &[0x00, 0x01, 0x11, 0x7e]);
    assert_eq!(frame.len(), 70_018);
    assert_eq!(frame[4], 4);
    assert_eq!(frame[17], 0x20);
}

#[test]
fn record_carries_each_priority() {
    let all = [
        (LogPriority::Verbose, 0u8),
        (LogPriority::Debug, 1),
        (LogPriority::Info, 2),
        (LogPriority::Warn, 3),
        (LogPriority::Error, 4),
    ];
    for (priority, byte) in all {
        let frame = encode_log_record(priority, &sample_timestamp(), b"t", b"m");
        assert_eq!(frame[4], byte);
    }
}

#[test]
fn end_to_end_frames_of_one_session() {
    let pid = 4242u32;
    let handshake = encode_handshake(pid, 3);
    assert_eq!(handshake.len(), 10);
    assert_eq!(handshake[4], 1);
    assert_eq!(u32::from_be_bytes([handshake[5], handshake[6], handshake[7], handshake[8]]), pid);
    assert_eq!(handshake[9], 3);
    let record = encode_log_record(LogPriority::Info, &sample_timestamp(), b"TagA", b"hello");
    assert_eq!(length_field(&record), 1 + 9 + 4 + 1 + 5);
    assert_eq!(length_field(&record), 20);
}
