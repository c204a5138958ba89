use frame_bridge::filter::FilterPolicy;
use frame_bridge::frame::EthernetFrame;
use frame_bridge::pipeline::{capture_step, transmit_step, CaptureOutcome};
use frame_bridge::queue::{ForwardingQueue, DEFAULT_CAPACITY};

fn build_frame(ethertype: u16, total_len: usize, tag: u8) -> Vec<u8> {
    assert!(total_len >= 14);
    let mut buf = vec![0u8; total_len];
    buf[12] = (ethertype >> 8) as u8;
    buf[13] = (ethertype & 0xff) as u8;
    if total_len > 14 {
        buf[14] = tag;
    }
    buf
}

#[test]
fn queue_is_fifo() {
    let mut q = ForwardingQueue::new(10);
    for tag in 0..5u8 {
        let frame = EthernetFrame::parse(&build_frame(0x0800, 20, tag)).unwrap();
        assert!(q.try_enqueue(frame).is_ok());
    }
    assert_eq!(q.len(), 5);
    for tag in 0..5u8 {
        let frame = q.dequeue().expect("five frames were queued");
        assert_eq!(frame.to_bytes(), build_frame(0x0800, 20, tag));
    }
    assert!(q.is_empty());
    assert!(q.dequeue().is_none());
}

#[test]
fn full_queue_hands_the_frame_back() {
    let mut q = ForwardingQueue::new(3);
    for tag in 0..3u8 {
        let frame = EthernetFrame::parse(&build_frame(0x0800, 20, tag)).unwrap();
        assert!(q.try_enqueue(frame).is_ok());
    }
    assert!(q.is_full());
    let extra_bytes = build_frame(0x0800, 20, 9);
    let extra = EthernetFrame::parse(&extra_bytes).unwrap();
    match q.try_enqueue(extra) {
        Ok(()) => panic!("a full queue must refuse the frame"),
        Err(back) => assert_eq!(back.to_bytes(), extra_bytes),
    }
    assert_eq!(q.len(), 3);
    // once the consumer frees a slot, the retried enqueue succeeds
    let freed = q.dequeue().unwrap();
    assert_eq!(freed.to_bytes(), build_frame(0x0800, 20, 0));
    let retried = EthernetFrame::parse(&extra_bytes).unwrap();
    assert!(q.try_enqueue(retried).is_ok());
    assert_eq!(q.len(), 3);
}

#[test]
fn default_capacity_is_one_hundred() {
    let q = ForwardingQueue::with_default_capacity();
    assert_eq!(DEFAULT_CAPACITY, 100);
    assert_eq!(q.capacity(), 100);
    assert!(q.is_empty());
}

#[test]
fn scenario_one_ipv4_frame_forwarded_verbatim() {
    // one 60-byte IPv4 frame in on the receive path:
    // exactly one transmit with the identical 60 bytes
    let mut q = ForwardingQueue::with_default_capacity();
    let policy = FilterPolicy::ipv4_only();
    let buf = build_frame(0x0800, 60, 7);
    assert_eq!(capture_step(&mut q, &policy, &buf), CaptureOutcome::Enqueued);
    assert_eq!(q.len(), 1);
    let sent = transmit_step(&mut q).expect("one frame was queued");
    assert_eq!(sent.len(), 60);
    assert_eq!(sent, buf);
    assert!(transmit_step(&mut q).is_none());
}

#[test]
fn scenario_arp_frame_never_transmitted() {
    let mut q = ForwardingQueue::with_default_capacity();
    let policy = FilterPolicy::ipv4_only();
    let buf = build_frame(0x0806, 42, 7);
    assert_eq!(capture_step(&mut q, &policy, &buf), CaptureOutcome::Rejected);
    assert_eq!(q.len(), 0);
    assert!(transmit_step(&mut q).is_none());
}

#[test]
fn scenario_short_buffer_dropped_without_crash() {
    let mut q = ForwardingQueue::with_default_capacity();
    let policy = FilterPolicy::ipv4_only();
    let buf = vec![0u8; 10];
    assert_eq!(capture_step(&mut q, &policy, &buf), CaptureOutcome::Malformed);
    assert_eq!(q.len(), 0);
    assert!(transmit_step(&mut q).is_none());
    // the loop goes on: the next well-formed frame still gets through
    let good = build_frame(0x0800, 20, 1);
    assert_eq!(capture_step(&mut q, &policy, &good), CaptureOutcome::Enqueued);
}

#[test]
fn scenario_slow_consumer_no_frame_lost() {
    // 150 IPv4 frames back-to-back against a consumer that takes one frame
    // only when the producer is stalled: no loss, arrival order kept, queue
    // length never above the capacity
    let mut q = ForwardingQueue::with_default_capacity();
    let policy = FilterPolicy::ipv4_only();
    let mut transmitted: Vec<Vec<u8>> = Vec::new();
    let mut max_len: usize = 0;
    for tag in 0..150u8 {
        let buf = build_frame(0x0800, 20, tag);
        loop {
            let outcome = capture_step(&mut q, &policy, &buf);
            if q.len() > max_len {
                max_len = q.len();
            }
            match outcome {
                CaptureOutcome::Enqueued => break,
                CaptureOutcome::QueueFull => {
                    // the producer suspends; the consumer frees one slot
                    let sent = transmit_step(&mut q).expect("a full queue is not empty");
                    transmitted.push(sent);
                }
                other => panic!("unexpected outcome {:?}", other),
            }
        }
    }
    // draining completes
    while let Some(sent) = transmit_step(&mut q) {
        transmitted.push(sent);
    }
    assert_eq!(transmitted.len(), 150);
    assert!(max_len <= 100);
    assert_eq!(max_len, 100);
    for (i, sent) in transmitted.iter().enumerate() {
        assert_eq!(*sent, build_frame(0x0800, 20, i as u8));
    }
}

#[test]
fn capture_step_mixed_traffic_keeps_accepted_order() {
    let mut q = ForwardingQueue::with_default_capacity();
    let policy = FilterPolicy::ipv4_only();
    let first = build_frame(0x0800, 20, 1);
    let arp = build_frame(0x0806, 20, 2);
    let short = vec![1u8, 2, 3];
    let second = build_frame(0x0800, 30, 3);
    assert_eq!(capture_step(&mut q, &policy, &first), CaptureOutcome::Enqueued);
    assert_eq!(capture_step(&mut q, &policy, &arp), CaptureOutcome::Rejected);
    assert_eq!(capture_step(&mut q, &policy, &short), CaptureOutcome::Malformed);
    assert_eq!(capture_step(&mut q, &policy, &second), CaptureOutcome::Enqueued);
    assert_eq!(q.len(), 2);
    assert_eq!(transmit_step(&mut q).unwrap(), first);
    assert_eq!(transmit_step(&mut q).unwrap(), second);
    assert!(transmit_step(&mut q).is_none());
}

#[test]
fn capture_step_backpressure_at_capacity() {
    let mut q = ForwardingQueue::new(2);
    let policy = FilterPolicy::ipv4_only();
    let a = build_frame(0x0800, 20, 1);
    let b = build_frame(0x0800, 20, 2);
    let c = build_frame(0x0800, 20, 3);
    assert_eq!(capture_step(&mut q, &policy, &a), CaptureOutcome::Enqueued);
    assert_eq!(capture_step(&mut q, &policy, &b), CaptureOutcome::Enqueued);
    assert_eq!(capture_step(&mut q, &policy, &c), CaptureOutcome::QueueFull);
    assert_eq!(q.len(), 2);
    assert_eq!(transmit_step(&mut q).unwrap(), a);
    assert_eq!(capture_step(&mut q, &policy, &c), CaptureOutcome::Enqueued);
    assert_eq!(transmit_step(&mut q).unwrap(), b);
    assert_eq!(transmit_step(&mut q).unwrap(), c);
}
