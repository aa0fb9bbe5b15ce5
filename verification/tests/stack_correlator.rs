use pulsar::helpers::stack_correlator::{StackCorrelator, StackWalkPayload};

#[test]
fn test_stack_walk_payload_parse() {
    assert!(StackWalkPayload::parse(&[0u8; 15]).is_none());

    let mut buffer = Vec::new();
    buffer.extend_from_slice(&100_000u64.to_le_bytes());
    buffer.extend_from_slice(&1234u32.to_le_bytes());
    buffer.extend_from_slice(&5678u32.to_le_bytes());
    buffer.extend_from_slice(&0x7FFE_0000_1000u64.to_le_bytes());
    buffer.extend_from_slice(&0x7FFE_0000_2000u64.to_le_bytes());

    let payload = StackWalkPayload::parse(&buffer).expect("Must parse successfully");
    assert_eq!(payload.event_timestamp, 100_000);
    assert_eq!(payload.stack_process, 1234);
    assert_eq!(payload.stack_thread, 5678);
    assert_eq!(payload.frame_count, 2);
    assert_eq!(payload.frames, vec![0x7FFE_0000_1000u64, 0x7FFE_0000_2000u64]);
}

#[test]
fn test_trigger_before_stack_pairing() {
    let mut correlator = StackCorrelator::new(100);
    let ts = 200_000;

    let res1 = correlator.process_syscall_trigger(1000, 2000, ts, Some(0x28));
    assert!(res1.is_none());

    let payload = StackWalkPayload {
        event_timestamp: ts as u64,
        stack_process: 1000,
        stack_thread: 2000,
        frame_count: 1,
        frames: vec![0x7FFF_1234_5678],
    };
    let res2 = correlator.process_stack_walk(payload).expect("Must pair");
    assert_eq!(res2.pid, 1000);
    assert_eq!(res2.tid, 2000);
    assert_eq!(res2.timestamp, ts);
    assert_eq!(res2.syscall_address, Some(0x28));
    assert_eq!(res2.frames, vec![0x7FFF_1234_5678]);
}

#[test]
fn test_stack_before_trigger_pairing() {
    let mut correlator = StackCorrelator::new(100);
    let ts = 300_000;

    let payload = StackWalkPayload {
        event_timestamp: ts as u64,
        stack_process: 1000,
        stack_thread: 2000,
        frame_count: 1,
        frames: vec![0x7FFF_1234_5678],
    };
    let res1 = correlator.process_stack_walk(payload);
    assert!(res1.is_none());

    let res2 = correlator
        .process_syscall_trigger(1000, 2000, ts, Some(0x28))
        .expect("Must pair");
    assert_eq!(res2.pid, 1000);
    assert_eq!(res2.frames, vec![0x7FFF_1234_5678]);
}

#[test]
fn test_stack_correlator_sliding_window_ttl_prune() {
    let mut correlator = StackCorrelator::new(2).with_ttl(1_000);

    correlator.process_syscall_trigger(1001, 2001, 1_000, None);
    assert_eq!(correlator.pending_trigger_count(), 1);

    correlator.process_syscall_trigger(1002, 2002, 3_000, None);
    correlator.maintenance();

    assert_eq!(correlator.pending_trigger_count(), 1);
    assert!(correlator.has_pending_trigger(3_000));
}

#[test]
fn placeholder_ids_fall_back_to_the_other_half() {
    let mut correlator = StackCorrelator::new(10);
    let payload = StackWalkPayload {
        event_timestamp: 42,
        stack_process: 77,
        stack_thread: 88,
        frame_count: 0,
        frames: vec![],
    };
    assert!(correlator.process_stack_walk(payload).is_none());
    let ev = correlator.process_syscall_trigger(0, u32::MAX, 42, None).expect("pair");
    assert_eq!(ev.pid, 77);
    assert_eq!(ev.tid, 88);
    assert!(!correlator.has_pending_stack(42));

    assert!(correlator.process_syscall_trigger(5, 6, 43, Some(1)).is_none());
    let ev2 = correlator
        .process_stack_walk(StackWalkPayload {
            event_timestamp: 43,
            stack_process: 0,
            stack_thread: 9,
            frame_count: 0,
            frames: vec![],
        })
        .expect("pair");
    assert_eq!(ev2.pid, 5);
    assert_eq!(ev2.tid, 9);
    assert_eq!(ev2.syscall_address, Some(1));
}

#[test]
fn capacity_guard_keeps_newest() {
    let mut correlator = StackCorrelator::new(2);
    correlator.process_syscall_trigger(1, 1, 10, None);
    correlator.process_syscall_trigger(1, 1, 30, None);
    correlator.process_syscall_trigger(1, 1, 20, None);
    assert_eq!(correlator.pending_trigger_count(), 3);
    correlator.maintenance();
    assert_eq!(correlator.pending_trigger_count(), 2);
    assert!(!correlator.has_pending_trigger(10));
    assert!(correlator.has_pending_trigger(20));
    assert!(correlator.has_pending_trigger(30));
    assert_eq!(correlator.pending_stack_count(), 0);
}

#[test]
fn payload_with_partial_frame_ignores_trailing_bytes() {
    let mut buffer = vec![0u8; 16];
    buffer.extend_from_slice(&[1, 2, 3, 4, 5, 6, 7, 8, 9, 10]);
    let p = StackWalkPayload::parse(&buffer).expect("parse");
    assert_eq!(p.frame_count, 1);
    assert_eq!(p.frames, vec![0x0807_0605_0403_0201u64]);
}
