use platy_recorder::media::StreamSession;

#[test]
fn producer_never_blocks_and_consumer_sees_at_most_capacity() {
    // A channel of capacity 3, flooded with 5 chunks faster than anything
    // drains it: every attempt returns immediately, the first 3 chunks are
    // accepted, the rest are dropped and counted.
    let mut session = StreamSession::new(3);
    let mut delivered = 0;
    for i in 0..5 {
        let samples: Vec<i8> = vec![i as i8];
        if session.on_callback_i8(&samples, false, 0) {
            delivered += 1;
        }
    }
    assert_eq!(delivered, 3);
    assert_eq!(session.dropped_chunks, 2);

    // The consumer observes at most the capacity, in FIFO order.
    let mut drained: Vec<Vec<u8>> = Vec::new();
    while let Some(chunk) = session.take_chunk() {
        drained.push(chunk);
    }
    assert_eq!(drained.len(), 3);
    assert_eq!(drained, vec![vec![0u8], vec![1u8], vec![2u8]]);
}

#[test]
fn channel_is_fifo_per_stream() {
    let mut session = StreamSession::new(8);
    session.on_callback_i16(&vec![1], false, 0);
    session.on_callback_i16(&vec![2], false, 0);
    session.on_callback_i16(&vec![3], false, 0);
    assert_eq!(session.take_chunk(), Some(vec![1, 0]));
    assert_eq!(session.take_chunk(), Some(vec![2, 0]));
    assert_eq!(session.take_chunk(), Some(vec![3, 0]));
    assert_eq!(session.take_chunk(), None);
}

#[test]
fn drained_capacity_is_reusable() {
    let mut session = StreamSession::new(2);
    assert!(session.on_callback_i8(&vec![1], false, 0));
    assert!(session.on_callback_i8(&vec![2], false, 0));
    assert!(!session.on_callback_i8(&vec![3], false, 0));
    assert_eq!(session.take_chunk(), Some(vec![1]));
    // One slot freed: the next attempt succeeds again.
    assert!(session.on_callback_i8(&vec![4], false, 0));
    assert_eq!(session.take_chunk(), Some(vec![2]));
    assert_eq!(session.take_chunk(), Some(vec![4]));
    assert_eq!(session.take_chunk(), None);
}

#[test]
fn first_sample_instant_written_once() {
    let mut session = StreamSession::new(4);
    // Contended attempt: the instant stays unset.
    session.on_callback_i8(&vec![1], false, 100);
    assert_eq!(session.first_sample_at, None);
    // First uncontended attempt wins.
    session.on_callback_i8(&vec![2], true, 200);
    assert_eq!(session.first_sample_at, Some(200));
    // Later attempts never overwrite it.
    session.on_callback_i8(&vec![3], true, 300);
    assert_eq!(session.first_sample_at, Some(200));
}

#[test]
fn empty_channel_yields_nothing() {
    let mut session = StreamSession::new(1);
    assert_eq!(session.take_chunk(), None);
    assert_eq!(session.dropped_chunks, 0);
}
