use pf2::sample::{
    record_native_pc, walk_native, Sample, C_BACKTRACE_SLOTS, HOST_FRAME_LIMIT, MARKS_PER_SAMPLE,
    MAX_C_STACK_DEPTH, MAX_STACK_DEPTH,
};

#[test]
fn capture_keeps_thread_time_and_frames() {
    let s = Sample::capture(42, 1234, Some(&[0xa0, 0xb0, 0xc0]), &[11, 12, 13], &[1, 2, 3]);
    assert_eq!(s.ruby_thread, 42);
    assert_eq!(s.timestamp, 1234);
    assert_eq!(s.line_count, 3);
    assert_eq!(&s.frames[0..4], &[11, 12, 13, 0]);
    assert_eq!(&s.linenos[0..4], &[1, 2, 3, 0]);
    assert_eq!(&s.c_backtrace_pcs[0..5], &[3, 0xa0, 0xb0, 0xc0, 0]);
}

#[test]
fn capture_without_native_walk_leaves_zero_table() {
    let s = Sample::capture(1, 2, None, &[5], &[6]);
    assert!(s.c_backtrace_pcs.iter().all(|pc| *pc == 0));
    assert_eq!(s.line_count, 1);
}

#[test]
fn capture_caps_managed_depth_at_500() {
    let frames: Vec<u64> = (1..=600u64).collect();
    let linenos: Vec<i32> = (1..=600i32).collect();
    let s = Sample::capture(1, 2, None, &frames, &linenos);
    assert_eq!(s.line_count, 500);
    assert_eq!(s.frames[499], 500);
    assert_eq!(s.linenos[499], 500);
}

#[test]
fn capture_caps_native_depth_at_1000() {
    let pcs: Vec<usize> = (1..=1500usize).collect();
    let s = Sample::capture(1, 2, Some(&pcs), &[], &[]);
    assert_eq!(s.c_backtrace_pcs[0], 1000);
    assert_eq!(s.c_backtrace_pcs[1], 1);
    assert_eq!(s.c_backtrace_pcs[1000], 1000);
    assert_eq!(s.line_count, 0);
}

#[test]
fn slots_from_line_count_on_are_zero() {
    let s = Sample::capture(1, 2, None, &[9, 8, 7, 6], &[1, 2, 3, 4]);
    assert_eq!(s.line_count, 4);
    assert!(s.frames[4..].iter().all(|f| *f == 0));
    assert!(s.linenos[4..].iter().all(|l| *l == 0));
}

#[test]
fn capture_keeps_the_shorter_of_frames_and_lines() {
    let s = Sample::capture(1, 2, None, &[9, 8, 7], &[1, 2]);
    assert_eq!(s.line_count, 2);
    assert_eq!(&s.frames[0..3], &[9, 8, 0]);
}

#[test]
fn record_native_pc_counts_and_stores() {
    let mut table = [0usize; 1001];
    assert_eq!(record_native_pc(&mut table, 0x10), 0);
    assert_eq!(record_native_pc(&mut table, 0x20), 0);
    assert_eq!(&table[0..4], &[2, 0x10, 0x20, 0]);
}

#[test]
fn record_native_pc_stops_when_full() {
    let mut table = [0usize; 1001];
    for pc in 1..=1000usize {
        assert_eq!(record_native_pc(&mut table, pc), 0);
    }
    let before = table;
    assert_eq!(record_native_pc(&mut table, 7777), 1);
    assert_eq!(table, before);
    assert_eq!(table[0], 1000);
}

#[test]
fn walk_native_of_nothing_is_all_zero() {
    let table = walk_native(&[]);
    assert!(table.iter().all(|pc| *pc == 0));
}

#[test]
fn sample_lists_thread_then_all_slots() {
    let s = Sample::capture(77, 2, None, &[5, 6], &[1, 2]);
    let refs = s.dmark();
    assert_eq!(refs.len(), 501);
    assert_eq!(&refs[0..4], &[77, 5, 6, 0]);
}

#[test]
fn sample_handles_by_slot() {
    let s = Sample::capture(77, 2, None, &[5, 6], &[1, 2]);
    assert_eq!(s.marked_at(0), 77);
    assert_eq!(s.marked_at(1), 5);
    assert_eq!(s.marked_at(2), 6);
    assert_eq!(s.marked_at(3), 0);
    assert_eq!(s.marked_at(500), 0);
}

#[test]
fn depths_and_limits() {
    assert_eq!(MAX_STACK_DEPTH, 500);
    assert_eq!(MAX_C_STACK_DEPTH, 1000);
    assert_eq!(C_BACKTRACE_SLOTS, 1001);
    assert_eq!(MARKS_PER_SAMPLE, 501);
    assert_eq!(HOST_FRAME_LIMIT, 2000);
}

#[test]
fn capture_of_a_full_host_report_keeps_the_first_500() {
    let frames: Vec<u64> = (1..=HOST_FRAME_LIMIT as u64).collect();
    let linenos: Vec<i32> = (1..=HOST_FRAME_LIMIT as i32).collect();
    let s = Sample::capture(9, 9, None, &frames, &linenos);
    assert_eq!(s.line_count, 500);
    assert_eq!(s.frames[0], 1);
    assert_eq!(s.frames[499], 500);
}
