use service::channel::{BridgeChannel, SendError, TryReceiveError};

#[test]
fn single_producer_events_arrive_in_order() {
    let mut chan: BridgeChannel<u32> = BridgeChannel::new(8);
    for e in [3u32, 1, 4, 1, 5] {
        assert_eq!(chan.send(e), Ok(()));
    }
    let mut seen = Vec::new();
    while let Ok(e) = chan.try_receive() {
        seen.push(e);
    }
    assert_eq!(seen, vec![3, 1, 4, 1, 5]);
}

#[test]
fn interleaved_sends_and_receives_keep_order() {
    let mut chan: BridgeChannel<u32> = BridgeChannel::new(2);
    let mut seen = Vec::new();
    for e in 0u32..10 {
        assert_eq!(chan.send(e), Ok(()));
        if e % 2 == 1 {
            seen.push(chan.try_receive().unwrap());
            seen.push(chan.try_receive().unwrap());
        }
    }
    assert_eq!(seen, (0u32..10).collect::<Vec<_>>());
}

#[test]
fn full_channel_hands_event_back() {
    let mut chan: BridgeChannel<u32> = BridgeChannel::new(2);
    assert_eq!(chan.send(10), Ok(()));
    assert_eq!(chan.send(11), Ok(()));
    assert_eq!(chan.send(12), Err(SendError::Full(12)));
    assert_eq!(chan.len(), 2);
    assert_eq!(chan.try_receive(), Ok(10));
    assert_eq!(chan.send(12), Ok(()));
    assert_eq!(chan.try_receive(), Ok(11));
    assert_eq!(chan.try_receive(), Ok(12));
    assert_eq!(chan.try_receive(), Err(TryReceiveError::Empty));
}

#[test]
fn accepted_event_is_received_after_earlier_ones() {
    let mut chan: BridgeChannel<u32> = BridgeChannel::new(3);
    assert_eq!(chan.send(1), Ok(()));
    assert_eq!(chan.send(2), Ok(()));
    assert_eq!(chan.send(3), Ok(()));
    assert_eq!(chan.send(4), Err(SendError::Full(4)));
    assert_eq!(chan.try_receive(), Ok(1));
    assert_eq!(chan.send(4), Ok(()));
    let drained: Vec<u32> = std::iter::from_fn(|| chan.try_receive().ok()).collect();
    assert_eq!(drained, vec![2, 3, 4]);
}

#[test]
fn send_after_consumer_dropped_is_closed() {
    let mut chan: BridgeChannel<u32> = BridgeChannel::new(4);
    assert_eq!(chan.send(1), Ok(()));
    chan.close_receiver();
    assert!(!chan.is_receiver_open());
    assert_eq!(chan.len(), 0);
    for e in 0u32..5 {
        assert_eq!(chan.send(e), Err(SendError::Closed(e)));
    }
    assert_eq!(chan.try_receive(), Err(TryReceiveError::Closed));
}

#[test]
fn try_receive_on_empty_open_channel_is_empty() {
    let mut chan: BridgeChannel<u32> = BridgeChannel::new(4);
    assert!(chan.is_empty());
    assert_eq!(chan.try_receive(), Err(TryReceiveError::Empty));
    assert_eq!(chan.try_receive(), Err(TryReceiveError::Empty));
    assert!(chan.is_receiver_open());
}

#[test]
fn receiver_sees_closed_after_last_sender_leaves() {
    let mut chan: BridgeChannel<u32> = BridgeChannel::new(4);
    chan.attach_sender();
    assert_eq!(chan.sender_count(), 2);
    assert_eq!(chan.send(7), Ok(()));
    chan.detach_sender();
    chan.detach_sender();
    assert_eq!(chan.sender_count(), 0);
    assert_eq!(chan.try_receive(), Ok(7));
    assert_eq!(chan.try_receive(), Err(TryReceiveError::Closed));
    chan.detach_sender();
    assert_eq!(chan.sender_count(), 0);
}

#[test]
fn send_without_producer_is_closed() {
    let mut chan: BridgeChannel<u32> = BridgeChannel::new(4);
    chan.detach_sender();
    assert_eq!(chan.send(1), Err(SendError::Closed(1)));
    assert_eq!(chan.len(), 0);
    assert_eq!(chan.try_receive(), Err(TryReceiveError::Closed));
    assert_eq!(chan.send(2), Err(SendError::Closed(2)));
}

#[test]
fn new_channel_state() {
    let chan: BridgeChannel<u32> = BridgeChannel::new(32);
    assert_eq!(chan.capacity(), 32);
    assert_eq!(chan.sender_count(), 1);
    assert_eq!(chan.len(), 0);
    assert!(chan.is_receiver_open());
}
