use spsc_sync::spsc::{channel, QueueEmptyError, QueueFullError, RingBuffer};

#[test]
fn two_slot_scenario() {
    let mut q: RingBuffer<u32> = RingBuffer::new(2);
    assert_eq!(q.try_send(1), Ok(()));
    assert_eq!(q.try_send(2), Ok(()));
    assert_eq!(q.try_send(3), Err(QueueFullError));
    assert_eq!(q.try_recv(), Ok(1));
    assert_eq!(q.try_send(3), Ok(()));
    assert_eq!(q.try_recv(), Ok(2));
    assert_eq!(q.try_recv(), Ok(3));
    assert_eq!(q.try_recv(), Err(QueueEmptyError));
}

#[test]
fn two_slot_scenario_through_channel() {
    let (tx, rx) = channel::<u32>(2);
    assert_eq!(tx.try_send(1), Ok(()));
    assert_eq!(tx.try_send(2), Ok(()));
    assert_eq!(tx.try_send(3), Err(QueueFullError));
    assert_eq!(rx.try_recv(), Ok(1));
    assert_eq!(tx.try_send(3), Ok(()));
    assert_eq!(rx.try_recv(), Ok(2));
    assert_eq!(rx.try_recv(), Ok(3));
    assert_eq!(rx.try_recv(), Err(QueueEmptyError));
}

#[test]
fn fill_to_capacity_then_full() {
    let n: usize = 16;
    let mut q: RingBuffer<usize> = RingBuffer::new(n);
    for i in 0..n {
        assert_eq!(q.try_send(i), Ok(()));
    }
    assert_eq!(q.len(), n);
    assert!(q.is_full());
    assert_eq!(q.try_send(99), Err(QueueFullError));
    assert_eq!(q.len(), n);
}

#[test]
fn recv_on_empty_is_queue_empty() {
    let mut q: RingBuffer<String> = RingBuffer::new(4);
    assert!(q.is_empty());
    assert_eq!(q.try_recv(), Err(QueueEmptyError));
    assert_eq!(q.len(), 0);
}

#[test]
fn values_come_out_in_send_order() {
    let mut q: RingBuffer<String> = RingBuffer::new(5);
    let words = ["a", "b", "c", "d"];
    for w in words.iter() {
        assert_eq!(q.try_send(w.to_string()), Ok(()));
    }
    for w in words.iter() {
        assert_eq!(q.try_recv(), Ok(w.to_string()));
    }
    assert!(q.is_empty());
}

#[test]
fn wraparound_keeps_order_and_capacity() {
    let n: usize = 5;
    let m: usize = 3;
    let mut q: RingBuffer<usize> = RingBuffer::new(n);
    for i in 0..n {
        assert_eq!(q.try_send(i), Ok(()));
    }
    for i in 0..m {
        assert_eq!(q.try_recv(), Ok(i));
    }
    for i in n..n + m {
        assert_eq!(q.try_send(i), Ok(()));
    }
    assert!(q.is_full());
    assert_eq!(q.try_send(100), Err(QueueFullError));
    for i in m..n + m {
        assert_eq!(q.try_recv(), Ok(i));
    }
    assert_eq!(q.try_recv(), Err(QueueEmptyError));
    assert_eq!(q.capacity(), n);
}

#[test]
fn many_laps_around_the_ring() {
    let mut q: RingBuffer<u64> = RingBuffer::new(3);
    let mut next_in: u64 = 0;
    let mut next_out: u64 = 0;
    for round in 0..50u64 {
        let sends = round % 4;
        for _ in 0..sends {
            if q.len() < 3 {
                assert_eq!(q.try_send(next_in), Ok(()));
                next_in += 1;
            } else {
                assert_eq!(q.try_send(next_in), Err(QueueFullError));
            }
        }
        let recvs = (round + 1) % 3;
        for _ in 0..recvs {
            if q.len() > 0 {
                assert_eq!(q.try_recv(), Ok(next_out));
                next_out += 1;
            } else {
                assert_eq!(q.try_recv(), Err(QueueEmptyError));
            }
        }
        assert_eq!(q.len() as u64, next_in - next_out);
    }
}

#[test]
fn zero_capacity_is_always_full_and_empty() {
    let mut q: RingBuffer<u8> = RingBuffer::new(0);
    assert!(q.is_empty());
    assert!(q.is_full());
    assert_eq!(q.try_send(7), Err(QueueFullError));
    assert_eq!(q.try_recv(), Err(QueueEmptyError));
}

#[test]
fn single_slot_alternates() {
    let mut q: RingBuffer<i32> = RingBuffer::new(1);
    for i in 0..10 {
        assert_eq!(q.try_send(i), Ok(()));
        assert_eq!(q.try_send(-1), Err(QueueFullError));
        assert_eq!(q.try_recv(), Ok(i));
        assert_eq!(q.try_recv(), Err(QueueEmptyError));
    }
}

#[test]
fn error_messages() {
    assert_eq!(QueueFullError.message(), "spsc queue is full");
    assert_eq!(QueueEmptyError.message(), "spsc queue is empty");
    assert_ne!(QueueFullError.message(), QueueEmptyError.message());
}

#[test]
fn channel_reports_capacity() {
    let (tx, rx) = channel::<u8>(7);
    assert_eq!(tx.capacity(), 7);
    assert_eq!(rx.capacity(), 7);
}

#[test]
fn channel_ends_share_one_buffer() {
    let (tx, rx) = channel::<u32>(3);
    let mut next_in: u32 = 0;
    let mut next_out: u32 = 0;
    for round in 0..40u32 {
        for _ in 0..(round % 5) {
            match tx.try_send(next_in) {
                Ok(()) => next_in += 1,
                Err(e) => {
                    assert_eq!(e, QueueFullError);
                    assert_eq!(next_in - next_out, 3);
                }
            }
        }
        for _ in 0..(round % 4) {
            match rx.try_recv() {
                Ok(v) => {
                    assert_eq!(v, next_out);
                    next_out += 1;
                }
                Err(e) => {
                    assert_eq!(e, QueueEmptyError);
                    assert_eq!(next_in, next_out);
                }
            }
        }
    }
}
