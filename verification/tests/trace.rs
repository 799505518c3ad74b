use yaminabe::syscall::X86_64Syscalls;
use yaminabe::trace::{decode_trace, SyscallEvent, TraceDecodeError};

fn record(timestamp: u64, nr: u32, pid: u32, ppid: u32, name: &[u8]) -> Vec<u8> {
    let mut bytes = Vec::new();
    bytes.extend_from_slice(&timestamp.to_le_bytes());
    bytes.extend_from_slice(&nr.to_le_bytes());
    bytes.extend_from_slice(&pid.to_le_bytes());
    bytes.extend_from_slice(&ppid.to_le_bytes());
    let mut comm = [0u8; 16];
    comm[..name.len()].copy_from_slice(name);
    bytes.extend_from_slice(&comm);
    bytes
}

fn event(name: &[u8]) -> SyscallEvent {
    let mut comm = [0u8; 16];
    comm[..name.len()].copy_from_slice(name);
    SyscallEvent { timestamp: 0, nr: 0, pid: 0, ppid: 0, comm }
}

#[test]
fn record_decodes_field_by_field() {
    let bytes = record(0x0102_0304_0506_0708, 0x0a0b_0c0d, 77, 1, b"target");
    assert_eq!(bytes.len(), 36);
    let e = SyscallEvent::decode(&bytes).expect("a whole record");
    assert_eq!(e.timestamp, 0x0102_0304_0506_0708);
    assert_eq!(e.nr, 0x0a0b_0c0d);
    assert_eq!(e.pid, 77);
    assert_eq!(e.ppid, 1);
    assert_eq!(&e.comm[..6], b"target");
    assert_eq!(&e.comm[6..], &[0u8; 10]);
}

#[test]
fn record_bytes_are_little_endian() {
    let mut bytes = vec![0u8; 36];
    bytes[0] = 1;
    bytes[1] = 2;
    bytes[8] = 3;
    bytes[11] = 4;
    bytes[12] = 5;
    bytes[16] = 6;
    bytes[20] = b'x';
    bytes[35] = b'y';
    let e = SyscallEvent::decode(&bytes).expect("a whole record");
    assert_eq!(e.timestamp, 513);
    assert_eq!(e.nr, 3 + (4 << 24));
    assert_eq!(e.pid, 5);
    assert_eq!(e.ppid, 6);
    assert_eq!(e.comm[0], b'x');
    assert_eq!(e.comm[15], b'y');
}

#[test]
fn record_with_largest_values_decodes() {
    let bytes = record(u64::MAX, u32::MAX, u32::MAX, u32::MAX, &[0xff; 16]);
    let e = SyscallEvent::decode(&bytes).expect("a whole record");
    assert_eq!(e.timestamp, u64::MAX);
    assert_eq!(e.nr, u32::MAX);
    assert_eq!(e.pid, u32::MAX);
    assert_eq!(e.ppid, u32::MAX);
    assert_eq!(e.comm, [0xff; 16]);
}

#[test]
fn record_of_wrong_length_is_truncated() {
    assert_eq!(
        SyscallEvent::decode(&[0u8; 35]).err(),
        Some(TraceDecodeError::TruncatedRecord { index: 0, available: 35 })
    );
    assert_eq!(
        SyscallEvent::decode(&[]).err(),
        Some(TraceDecodeError::TruncatedRecord { index: 0, available: 0 })
    );
    assert_eq!(
        SyscallEvent::decode(&[0u8; 37]).err(),
        Some(TraceDecodeError::TruncatedRecord { index: 0, available: 37 })
    );
}

#[test]
fn trace_decodes_in_capture_order() {
    let mut bytes = record(30, 1, 1, 0, b"target");
    bytes.extend(record(10, 2, 2, 1, b"sh"));
    bytes.extend(record(20, 3, 3, 1, b"target"));
    let events = decode_trace(&bytes).expect("whole records");
    let stamps: Vec<u64> = events.iter().map(|e| e.timestamp).collect();
    assert_eq!(stamps, vec![30, 10, 20]);
    let numbers: Vec<u32> = events.iter().map(|e| e.nr).collect();
    assert_eq!(numbers, vec![1, 2, 3]);
    assert!(events[0].is_target());
    assert!(!events[1].is_target());
}

#[test]
fn empty_trace_has_no_events() {
    assert_eq!(decode_trace(&[]).expect("nothing to decode").len(), 0);
}

#[test]
fn truncated_trace_names_the_broken_record() {
    let mut bytes = record(1, 1, 1, 1, b"a");
    bytes.extend(record(2, 2, 2, 2, b"b"));
    bytes.extend_from_slice(&[9; 35]);
    assert_eq!(
        decode_trace(&bytes).err(),
        Some(TraceDecodeError::TruncatedRecord { index: 2, available: 35 })
    );
    assert_eq!(
        decode_trace(&[1]).err(),
        Some(TraceDecodeError::TruncatedRecord { index: 0, available: 1 })
    );
}

#[test]
fn name_length_ignores_trailing_nuls_only() {
    assert_eq!(event(b"target").name_len(), 6);
    assert_eq!(event(b"").name_len(), 0);
    assert_eq!(event(b"0123456789abcdef").name_len(), 16);
    assert_eq!(event(b"a\0b").name_len(), 3);
    assert_eq!(event(b"\0\0x").name_len(), 3);
}

#[test]
fn process_name_as_text() {
    assert_eq!(event(b"target").comm_to_string(), "target");
    assert_eq!(event(b"").comm_to_string(), "");
    assert_eq!(event(b"0123456789abcdef").comm_to_string(), "0123456789abcdef");
    assert_eq!(event(b"a\0b").comm_to_string(), "a\0b");
    assert_eq!(event(&[b'a', 0xff, b'b']).comm_to_string(), "a\u{fffd}b");
}

#[test]
fn event_number_to_syscall() {
    let mut e = event(b"target");
    e.nr = 59;
    assert_eq!(e.nr_to_syscall(), Some(X86_64Syscalls::Execve));
    e.nr = 35;
    assert_eq!(e.nr_to_syscall(), Some(X86_64Syscalls::Nanosleep));
    e.nr = 24;
    assert_eq!(e.nr_to_syscall(), Some(X86_64Syscalls::SchedYield));
    e.nr = 100_000;
    assert_eq!(e.nr_to_syscall(), None);
}

#[test]
fn event_timestamp_to_uptime() {
    let mut e = event(b"target");
    e.timestamp = 3_600_000_000_000 + 5;
    let up = e.timestamp_to_uptime();
    assert_eq!(up.day, 0);
    assert_eq!(up.hour, 1);
    assert_eq!(up.min, 0);
    assert_eq!(up.sec, 0);
    assert_eq!(up.nano, 5);
}
