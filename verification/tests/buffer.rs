use video_player::CircularBuffer;

#[test]
fn buffer_starts_empty() {
    let mut buffer: CircularBuffer<i32> = CircularBuffer::new(4);
    assert!(buffer.is_empty());
    assert_eq!(buffer.len(), 0);
    assert_eq!(buffer.try_pop(), None);
}

#[test]
fn buffer_pops_in_fifo_order() {
    let mut buffer: CircularBuffer<i32> = CircularBuffer::new(4);
    buffer.push(1);
    buffer.push(2);
    buffer.push(3);
    assert_eq!(buffer.len(), 3);
    assert_eq!(buffer.try_pop(), Some(1));
    assert_eq!(buffer.try_pop(), Some(2));
    assert_eq!(buffer.try_pop(), Some(3));
    assert_eq!(buffer.try_pop(), None);
}

#[test]
fn buffer_push_overwrites_oldest_when_full() {
    let mut buffer: CircularBuffer<i32> = CircularBuffer::new(3);
    buffer.push(1);
    buffer.push(2);
    buffer.push(3);
    buffer.push(4);
    assert_eq!(buffer.len(), 3);
    assert_eq!(buffer.try_pop(), Some(2));
    assert_eq!(buffer.try_pop(), Some(3));
    assert_eq!(buffer.try_pop(), Some(4));
}

#[test]
fn buffer_length_never_exceeds_capacity() {
    let mut buffer: CircularBuffer<u64> = CircularBuffer::new(5);
    for round in 0..20u64 {
        buffer.push(round);
        assert!(buffer.len() <= 5);
        if round % 3 == 0 {
            buffer.try_pop();
        }
        assert!(buffer.len() <= 5);
    }
}

#[test]
fn push_slice_appends_when_there_is_room() {
    let mut buffer: CircularBuffer<i32> = CircularBuffer::new(8);
    buffer.push_slice(&[1, 2, 3]);
    buffer.push_slice(&[4, 5]);
    let mut drained = Vec::new();
    while let Some(item) = buffer.try_pop() {
        drained.push(item);
    }
    assert_eq!(drained, vec![1, 2, 3, 4, 5]);
}

#[test]
fn push_slice_evicts_just_enough_oldest_items() {
    let mut buffer: CircularBuffer<i32> = CircularBuffer::new(5);
    buffer.push_slice(&[1, 2, 3, 4]);
    buffer.push_slice(&[5, 6, 7]);
    // Of the history 1..=7 only the last five remain, in order.
    let mut drained = Vec::new();
    while let Some(item) = buffer.try_pop() {
        drained.push(item);
    }
    assert_eq!(drained, vec![3, 4, 5, 6, 7]);
}

#[test]
fn push_slice_larger_than_capacity_keeps_its_tail() {
    let mut buffer: CircularBuffer<i32> = CircularBuffer::new(3);
    buffer.push_slice(&[9, 9, 9]);
    buffer.push_slice(&[1, 2, 3, 4, 5]);
    let mut drained = Vec::new();
    while let Some(item) = buffer.try_pop() {
        drained.push(item);
    }
    assert_eq!(drained, vec![3, 4, 5]);
}

#[test]
fn push_slice_of_samples_keeps_latest_audio() {
    let mut buffer: CircularBuffer<f32> = CircularBuffer::new(4);
    buffer.push_slice(&[0.1f32, 0.2, 0.3, 0.4, 0.5]);
    assert_eq!(buffer.try_pop(), Some(0.2));
    assert_eq!(buffer.len(), 3);
}

#[test]
fn buffer_clear_discards_everything() {
    let mut buffer: CircularBuffer<i32> = CircularBuffer::new(4);
    buffer.push_slice(&[1, 2, 3]);
    buffer.clear();
    assert!(buffer.is_empty());
    assert_eq!(buffer.try_pop(), None);
}
