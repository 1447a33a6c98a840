use pf2::ringbuffer::{Ringbuffer, RingbufferError};
use pf2::sample::Sample;

fn sample_of(thread: u64, timestamp: u64) -> Sample {
    Sample::capture(thread, timestamp, None, &[thread + 1, thread + 2], &[10, 20])
}

#[test]
fn capacity_two_scenario() {
    let a = sample_of(1, 100);
    let b = sample_of(2, 200);
    let c = sample_of(3, 300);
    let mut rb = Ringbuffer::new(2);
    assert_eq!(rb.push(a), Ok(()));
    assert_eq!(rb.push(b), Ok(()));
    assert_eq!(rb.push(c), Err(RingbufferError::Full));
    assert_eq!(rb.len(), 2);
    assert_eq!(rb.pop(), Some(a));
    assert_eq!(rb.pop(), Some(b));
    assert_eq!(rb.pop(), None);
}

#[test]
fn pop_on_new_buffer_gives_none() {
    let mut rb = Ringbuffer::new(4);
    assert!(rb.is_empty());
    assert_eq!(rb.pop(), None);
    assert_eq!(rb.len(), 0);
    assert_eq!(rb.capacity(), 4);
}

#[test]
fn samples_come_out_in_push_order() {
    let mut rb = Ringbuffer::new(8);
    for n in 0..8u64 {
        assert_eq!(rb.push(sample_of(n, 1000 + n)), Ok(()));
    }
    for n in 0..8u64 {
        assert_eq!(rb.pop(), Some(sample_of(n, 1000 + n)));
    }
    assert_eq!(rb.pop(), None);
}

#[test]
fn push_on_full_buffer_changes_nothing() {
    let mut rb = Ringbuffer::new(3);
    for n in 0..3u64 {
        assert_eq!(rb.push(sample_of(n, n)), Ok(()));
    }
    assert_eq!(rb.push(sample_of(99, 99)), Err(RingbufferError::Full));
    assert_eq!(rb.len(), 3);
    for n in 0..3u64 {
        assert_eq!(rb.pop(), Some(sample_of(n, n)));
    }
    assert!(rb.is_empty());
}

#[test]
fn order_survives_wrapping_round_the_slots() {
    let mut rb = Ringbuffer::new(3);
    let mut next_in: u64 = 0;
    let mut next_out: u64 = 0;
    for _ in 0..10 {
        assert_eq!(rb.push(sample_of(next_in, next_in)), Ok(()));
        next_in += 1;
        assert_eq!(rb.push(sample_of(next_in, next_in)), Ok(()));
        next_in += 1;
        assert_eq!(rb.pop(), Some(sample_of(next_out, next_out)));
        next_out += 1;
        assert_eq!(rb.pop(), Some(sample_of(next_out, next_out)));
        next_out += 1;
    }
    assert_eq!(rb.pop(), None);
}

#[test]
fn buffer_without_slots_refuses_every_push() {
    let mut rb = Ringbuffer::new(0);
    assert_eq!(rb.push(sample_of(1, 1)), Err(RingbufferError::Full));
    assert_eq!(rb.pop(), None);
}

#[test]
fn buffer_lists_thread_and_slots_of_each_sample() {
    let mut rb = Ringbuffer::new(2);
    assert_eq!(rb.push(sample_of(7, 1)), Ok(()));
    assert_eq!(rb.push(sample_of(9, 2)), Ok(()));
    let refs = rb.dmark();
    assert_eq!(refs.len(), 2 * 501);
    assert_eq!(&refs[0..4], &[7, 8, 9, 0]);
    assert_eq!(&refs[501..505], &[9, 10, 11, 0]);
}

#[test]
fn waiting_samples_can_be_read_in_place() {
    let mut rb = Ringbuffer::new(3);
    for n in 0..3u64 {
        assert_eq!(rb.push(sample_of(n, n)), Ok(()));
    }
    assert_eq!(rb.pop(), Some(sample_of(0, 0)));
    assert_eq!(rb.push(sample_of(3, 3)), Ok(()));
    assert_eq!(*rb.get(0), sample_of(1, 1));
    assert_eq!(*rb.get(2), sample_of(3, 3));
    assert_eq!(rb.marked_at(0), Some(1));
    assert_eq!(rb.marked_at(1), Some(2));
    assert_eq!(rb.marked_at(501), Some(2));
    assert_eq!(rb.marked_at(2 * 501 + 2), Some(5));
    assert_eq!(rb.marked_at(3 * 501), None);
    assert_eq!(rb.len(), 3);
}
