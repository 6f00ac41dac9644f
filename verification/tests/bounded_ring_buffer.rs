use vibe_renderer::components::utils::bounded_ring_buffer::BoundedRingBuffer;

#[test]
fn empty_pop_front() {
    let mut buffer = BoundedRingBuffer::<u8>::new(1);
    buffer.pop_front();

    assert_eq!(buffer.head(), 0);
    assert_eq!(buffer.tail(), 0);
    assert_eq!(buffer.len(), 0);
    assert!(!buffer.is_full());
}

#[test]
fn empty_push_back() {
    let mut buffer = BoundedRingBuffer::<u8>::new(1);
    assert!(buffer.push_back(69));

    assert_eq!(buffer.head(), 0);
    assert_eq!(buffer.tail(), 0);
    assert!(buffer.is_full());
    assert_eq!(buffer.len(), 1);
    assert_eq!(buffer.storage()[0], 69);
}

#[test]
fn full_push_back() {
    let mut buffer = BoundedRingBuffer::<u8>::new(1);
    assert!(buffer.push_back(69));
    assert!(!buffer.push_back(42));

    assert_eq!(buffer.head(), 0);
    assert_eq!(buffer.tail(), 0);
    assert!(buffer.is_full());
    assert_eq!(buffer.len(), 1);
    assert_eq!(buffer.storage()[0], 69);
}

#[test]
fn wrap_push_back() {
    let mut buffer = BoundedRingBuffer::<u8>::new(1);
    assert!(buffer.push_back(69));
    buffer.pop_front();

    // should be in the beginning again
    assert_eq!(buffer.head(), 0);
    assert_eq!(buffer.tail(), 0);
    assert!(buffer.is_empty());
    assert_eq!(buffer.len(), 0);

    assert!(buffer.push_back(42));
    assert_eq!(buffer.head(), 0);
    assert_eq!(buffer.tail(), 0);
    assert!(!buffer.is_empty());
    assert!(buffer.is_full());
    assert_eq!(buffer.storage()[0], 42);
}

#[test]
fn wrapped_state() {
    let mut buffer = BoundedRingBuffer::<u8>::new(2);
    assert!(buffer.push_back(69));
    assert!(buffer.push_back(69));
    buffer.pop_front();

    assert_eq!(buffer.head(), 1);
    assert_eq!(buffer.tail(), 0);
    assert!(buffer.push_back(42));

    assert_eq!(buffer.head(), 1);
    assert_eq!(buffer.tail(), 1);
    assert!(buffer.is_full());
    assert_eq!(buffer.len(), 2);
    assert!(!buffer.is_empty());
    assert_eq!(buffer.storage(), &[42, 69]);
}

// the consuming iterator

#[test]
fn bounded_ring_buffer_empty() {
    let buffer = BoundedRingBuffer::<u8>::new(1);
    let mut iterator = buffer.into_iter();
    assert!(iterator.next().is_none());
}

#[test]
fn bounded_ring_buffer_full() {
    let mut buffer = BoundedRingBuffer::<u8>::new(1);
    assert!(buffer.push_back(69));

    let mut iterator = buffer.into_iter();
    assert_eq!(iterator.next(), Some(69));
    assert!(iterator.next().is_none());
}

#[test]
fn bounded_ring_buffer_wrapped() {
    let mut buffer = BoundedRingBuffer::<u8>::new(3);

    // head   tail
    //  |      |
    // [0, 1, 2]
    for i in 0..3 {
        assert!(buffer.push_back(i));
    }

    //      head tail
    //        |  |
    // [?, ?, 2]
    buffer.pop_front();
    buffer.pop_front();

    //   tail head
    //     |  |
    // [0, 1, 2]
    assert!(buffer.push_back(0));
    assert!(buffer.push_back(1));

    let mut iterator = buffer.into_iter();
    assert_eq!(iterator.next(), Some(2));
    assert_eq!(iterator.next(), Some(0));
    assert_eq!(iterator.next(), Some(1));
    assert!(iterator.next().is_none());
}

// the borrowing iterator

#[test]
fn empty() {
    let buffer = BoundedRingBuffer::<u8>::new(1);
    assert!(buffer.iter().next().is_none());
}

#[test]
fn full() {
    let mut buffer = BoundedRingBuffer::<u8>::new(1);
    assert!(buffer.push_back(69));

    let mut i = buffer.iter();
    assert_eq!(i.next(), Some(&69));
    assert!(i.next().is_none());
}

#[test]
fn wrapped() {
    let mut buffer = BoundedRingBuffer::<u8>::new(3);

    // head   tail
    //  |      |
    // [0, 1, 2]
    for i in 0..3 {
        assert!(buffer.push_back(i));
    }

    //      head tail
    //        |  |
    // [?, ?, 2]
    buffer.pop_front();
    buffer.pop_front();

    //   tail head
    //     |  |
    // [0, 1, 2]
    assert!(buffer.push_back(0));
    assert!(buffer.push_back(1));

    let mut iterator = buffer.iter();
    assert_eq!(iterator.next(), Some(&2));
    assert_eq!(iterator.next(), Some(&0));
    assert_eq!(iterator.next(), Some(&1));
    assert!(iterator.next().is_none());
}

// contigious

#[test]
fn contigious_empty() {
    let buffer = BoundedRingBuffer::<u8>::new(1);
    let c = buffer.contigious();
    assert!(c.head.is_empty());
    assert!(c.tail.is_empty());
}

#[test]
fn one_value() {
    let mut buffer = BoundedRingBuffer::<u8>::new(1);
    // [69]
    buffer.push_back(69);
    let c = buffer.contigious();
    assert_eq!(c.head, &[69]);
    assert!(c.tail.is_empty());
}

#[test]
fn contigious_wrapped() {
    let mut buffer = BoundedRingBuffer::<u8>::new(3);

    // [0, 1, 2]
    for i in 0..3 {
        buffer.push_back(i);
    }
    assert_eq!(buffer.storage(), &[0, 1, 2]);

    // [?, ?, 2]
    for _ in 0..2 {
        buffer.pop_front();
    }
    assert_eq!(buffer.storage()[2], 2);

    // [1, ?, 2]
    buffer.push_back(1);
    assert_eq!(buffer.storage()[0], 1);
    assert_eq!(buffer.storage()[2], 2);

    let c = buffer.contigious();
    assert_eq!(c.head, &[2]);
    assert_eq!(c.tail, &[1]);
}

// pop_while

#[test]
fn pop_while_empty() {
    let mut buffer = BoundedRingBuffer::<u8>::new(1);
    buffer.pop_while(|v| *v == 7);

    assert_eq!(buffer.head(), 0);
    assert_eq!(buffer.tail(), 0);
    assert!(buffer.is_empty());
}

#[test]
fn vec_like_filled_pop_all() {
    let mut buffer = BoundedRingBuffer::<u8>::new(5);

    // [1, 2, 3, 4, 5]
    for i in 0..5 {
        buffer.push_back(i);
    }

    buffer.pop_while(|v| *v < 6);

    assert!(buffer.is_empty());
    assert_eq!(buffer.head(), 0);
    assert_eq!(buffer.tail(), 0);
}

#[test]
fn wrapped_filled_pop_all() {
    let mut buffer = BoundedRingBuffer::<u8>::new(3);

    for i in 0..3 {
        buffer.push_back(i);
    }
    assert_eq!(buffer.storage(), &[0, 1, 2]);

    for _ in 0..2 {
        buffer.pop_front();
    }
    assert_eq!(buffer.storage()[2], 2);

    // [1, ?, 2]
    buffer.push_back(1);
    assert_eq!(buffer.storage()[0], 1);
    assert_eq!(buffer.storage()[2], 2);

    buffer.pop_while(|v| *v < 3);

    assert!(buffer.is_empty());
    assert_eq!(buffer.head(), 1);
    assert_eq!(buffer.tail(), 1);
}

#[test]
fn wrapped_filled_pop_one() {
    let mut buffer = BoundedRingBuffer::<u8>::new(3);

    for i in 0..3 {
        buffer.push_back(i);
    }
    assert_eq!(buffer.storage(), &[0, 1, 2]);

    for _ in 0..2 {
        buffer.pop_front();
    }
    assert_eq!(buffer.storage()[2], 2);

    // [1, ?, 2]
    buffer.push_back(1);
    assert_eq!(buffer.storage()[0], 1);
    assert_eq!(buffer.storage()[2], 2);

    buffer.pop_while(|v| *v != 1);

    assert_eq!(buffer.head(), 0);
    assert_eq!(buffer.tail(), 1);
    assert_eq!(buffer.len(), 1);
    assert_eq!(buffer.storage()[0], 1);
}

// further behaviour

#[test]
fn partially_filled_wrapped_len_counts_stored_values() {
    let mut buffer = BoundedRingBuffer::<u8>::new(3);
    for i in 0..3 {
        buffer.push_back(i);
    }
    buffer.pop_front();
    buffer.pop_front();
    // head = 2, tail = 0; one value stored
    assert!(buffer.push_back(7));
    // head = 2, tail = 1; two values stored: 2 then 7
    assert_eq!(buffer.len(), 2);
    let values: Vec<u8> = {
        let mut it = buffer.iter();
        let mut v = Vec::new();
        while let Some(x) = it.next() {
            v.push(*x);
        }
        v
    };
    assert_eq!(values, vec![2, 7]);
}

#[test]
fn partially_filled_iterators_stop_at_tail() {
    let mut buffer = BoundedRingBuffer::<u8>::new(4);
    assert!(buffer.push_back(5));
    assert!(buffer.push_back(6));
    let mut it = buffer.iter();
    assert_eq!(it.next(), Some(&5));
    assert_eq!(it.next(), Some(&6));
    assert_eq!(it.next(), None);
    let mut owned = buffer.into_iter();
    assert_eq!(owned.next(), Some(5));
    assert_eq!(owned.next(), Some(6));
    assert_eq!(owned.next(), None);
}

#[test]
fn pop_front_keeps_tail() {
    let mut buffer = BoundedRingBuffer::<u8>::new(3);
    assert!(buffer.push_back(1));
    assert!(buffer.push_back(2));
    // tail is at the last slot now
    assert_eq!(buffer.tail(), 2);
    buffer.pop_front();
    assert_eq!(buffer.head(), 1);
    assert_eq!(buffer.tail(), 2);
    assert_eq!(buffer.len(), 1);
    let c = buffer.contigious();
    assert_eq!(c.head, &[2]);
    assert!(c.tail.is_empty());
}

#[test]
fn full_buffer_is_contigious_from_head() {
    let mut buffer = BoundedRingBuffer::<u8>::new(3);
    for i in 0..3 {
        assert!(buffer.push_back(i));
    }
    buffer.pop_front();
    assert!(buffer.push_back(3));
    // full, head = tail = 1
    assert!(buffer.is_full());
    let c = buffer.contigious();
    assert_eq!(c.head, &[1, 2]);
    assert_eq!(c.tail, &[3]);
}

#[test]
fn push_back_refused_when_full_keeps_contents() {
    let mut buffer = BoundedRingBuffer::<u8>::new(2);
    assert!(buffer.push_back(1));
    assert!(buffer.push_back(2));
    assert!(!buffer.push_back(3));
    assert_eq!(buffer.len(), 2);
    let mut it = buffer.into_iter();
    assert_eq!(it.next(), Some(1));
    assert_eq!(it.next(), Some(2));
    assert_eq!(it.next(), None);
}

#[test]
fn default_capacity() {
    let mut buffer: BoundedRingBuffer<u8> = Default::default();
    for i in 0..1024 {
        assert!(buffer.push_back((i % 256) as u8));
    }
    assert!(!buffer.push_back(0));
    assert_eq!(buffer.len(), 1024);
}

fn collect_by_ref(b: &BoundedRingBuffer<u32>) -> Vec<u32> {
    let mut it = b.iter();
    let mut out = Vec::new();
    while let Some(v) = it.next() {
        out.push(*v);
    }
    assert_eq!(it.next(), None);
    out
}

#[test]
fn pushes_fill_exactly_to_capacity() {
    let mut b: BoundedRingBuffer<u32> = BoundedRingBuffer::new(3);
    let added: Vec<bool> = (10..15).map(|v| b.push_back(v)).collect();
    assert_eq!(added, vec![true, true, true, false, false]);
    assert_eq!(collect_by_ref(&b), vec![10, 11, 12]);
}

#[test]
fn len_contigious_and_iteration_agree_after_mixed_calls() {
    let mut b: BoundedRingBuffer<u32> = BoundedRingBuffer::new(4);
    let mut expected: std::collections::VecDeque<u32> = std::collections::VecDeque::new();
    for step in 0..40u32 {
        if step % 3 == 2 {
            b.pop_front();
            expected.pop_front();
        } else if b.push_back(step) {
            expected.push_back(step);
        }
        let want: Vec<u32> = expected.iter().copied().collect();
        assert_eq!(b.len(), want.len());
        assert_eq!(collect_by_ref(&b), want);
        let c = b.contigious();
        let joined: Vec<u32> = c.head.iter().chain(c.tail.iter()).copied().collect();
        assert_eq!(joined, want);
    }
    let want: Vec<u32> = expected.iter().copied().collect();
    let mut it = b.into_iter();
    let mut got = Vec::new();
    while let Some(v) = it.next() {
        got.push(v);
    }
    assert_eq!(got, want);
    assert_eq!(it.next(), None);
}
