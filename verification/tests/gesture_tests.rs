use voxbox::{
    behavior_from_integer, vb_gesture_append, Behavior, EventfulGesture, Gesture, GestureEventQueue,
    GestureEventType, GestureVertex, LinearGesture, LinearGestureBuilder, QueueError,
    EVENT_QUEUE_SIZE,
};

#[test]
fn test_behavior_from_integer() {
    // Out of bounds error
    let result = behavior_from_integer(9999).is_err();
    assert!(result);
}

#[test]
fn test_event_queue() {
    let mut queue = GestureEventQueue::new();
    queue.enqueue_scalar(123.0).unwrap();
    queue.enqueue_scalar(456.0).unwrap();
    assert_eq!(queue.num_events(), 2);

    let evt1 = queue.dequeue().unwrap();

    let result = matches!(evt1.evtype, GestureEventType::Scalar);
    assert!(result);

    assert!(evt1.data.scalar.is_some());

    if let Some(x) = evt1.data.scalar {
        assert_eq!(x, 123.0);
    }

    assert_eq!(queue.num_events(), 1);
    let evt2 = queue.dequeue().unwrap();
    assert!(evt2.data.scalar.is_some());

    let result = matches!(evt2.evtype, GestureEventType::Scalar);
    assert!(result);

    if let Some(x) = evt2.data.scalar {
        assert_eq!(x, 456.0);
    }

    assert_eq!(queue.num_events(), 0);
}

#[test]
fn behavior_codes_decode_in_order() {
    assert_eq!(behavior_from_integer(0), Ok(Behavior::Step));
    assert_eq!(behavior_from_integer(1), Ok(Behavior::Linear));
    assert_eq!(behavior_from_integer(2), Ok(Behavior::GlissTiny));
    assert_eq!(behavior_from_integer(3), Ok(Behavior::GlissSmall));
    assert_eq!(behavior_from_integer(4), Ok(Behavior::GlissMedium));
    assert_eq!(behavior_from_integer(5), Ok(Behavior::GlissLarge));
    assert_eq!(behavior_from_integer(6), Ok(Behavior::GlissHuge));
}

#[test]
fn behavior_code_out_of_range_is_handed_back() {
    assert_eq!(behavior_from_integer(7), Err(7));
    assert_eq!(behavior_from_integer(9999), Err(9999));
    assert_eq!(behavior_from_integer(u16::MAX), Err(u16::MAX));
}

#[test]
fn queue_starts_empty_and_underflows() {
    let mut queue: GestureEventQueue<f32> = GestureEventQueue::new();
    assert!(!queue.has_events());
    assert_eq!(queue.num_events(), 0);
    assert_eq!(queue.dequeue().err(), Some(QueueError::Underflow));
    assert_eq!(queue.num_events(), 0);
}

#[test]
fn queue_overflows_at_capacity() {
    let mut queue: GestureEventQueue<f32> = GestureEventQueue::new();
    for i in 0..EVENT_QUEUE_SIZE {
        assert_eq!(queue.enqueue_scalar(i as f32), Ok(()));
    }
    assert_eq!(queue.num_events(), 16);
    assert_eq!(queue.enqueue_scalar(99.0), Err(QueueError::Overflow));
    assert_eq!(queue.enqueue_rate(1, 2), Err(QueueError::Overflow));
    assert_eq!(queue.enqueue_behavior(Behavior::Step), Err(QueueError::Overflow));
    assert_eq!(queue.enqueue_wait(3), Err(QueueError::Overflow));
    assert_eq!(queue.num_events(), 16);
    // the refused events left no trace
    for i in 0..EVENT_QUEUE_SIZE {
        let evt = queue.dequeue().unwrap();
        assert_eq!(evt.data.scalar, Some(i as f32));
    }
    assert!(!queue.has_events());
}

#[test]
fn queue_keeps_order_across_the_wrap() {
    let mut queue: GestureEventQueue<u32> = GestureEventQueue::new();
    let mut next_in: u32 = 0;
    let mut next_out: u32 = 0;
    // ten in, seven out, forty times: head and tail go round the ring
    for _ in 0..40 {
        for _ in 0..10 {
            if queue.num_events() < EVENT_QUEUE_SIZE {
                queue.enqueue_scalar(next_in).unwrap();
                next_in += 1;
            }
        }
        for _ in 0..7 {
            let evt = queue.dequeue().unwrap();
            assert_eq!(evt.data.scalar, Some(next_out));
            next_out += 1;
        }
    }
    assert_eq!(queue.num_events() as u32, next_in - next_out);
}

#[test]
fn queue_events_carry_their_payload() {
    let mut queue: GestureEventQueue<f32> = GestureEventQueue::new();
    queue.enqueue_rate(2, 3).unwrap();
    queue.enqueue_behavior(Behavior::GlissHuge).unwrap();
    queue.enqueue_wait(5).unwrap();
    queue.enqueue_scalar(1.5).unwrap();

    let rate = queue.dequeue().unwrap();
    assert_eq!(rate.evtype, GestureEventType::Rate);
    assert_eq!(rate.data.rate, Some([2, 3]));
    assert_eq!(rate.data.scalar, None);
    assert_eq!(rate.data.behavior, None);

    let bhvr = queue.dequeue().unwrap();
    assert_eq!(bhvr.evtype, GestureEventType::Behavior);
    assert_eq!(bhvr.data.behavior, Some(Behavior::GlissHuge));
    assert_eq!(bhvr.data.rate, None);

    let wait = queue.dequeue().unwrap();
    assert_eq!(wait.evtype, GestureEventType::Wait);
    assert_eq!(wait.data.rate, Some([5, 0]));

    let scalar = queue.dequeue().unwrap();
    assert_eq!(scalar.evtype, GestureEventType::Scalar);
    assert_eq!(scalar.data.scalar, Some(1.5));
}

#[test]
fn gesture_update_shifts_the_segment() {
    let mut g: Gesture<f32> = Gesture::new(0.0);
    assert_eq!(g.prev, 0.0);
    assert_eq!(g.next, 0.0);
    assert_eq!(g.ratemul, [1, 1]);
    assert_eq!(g.behavior, Behavior::GlissMedium);
    assert_eq!(g.next_behavior, Behavior::GlissMedium);

    let a = GestureVertex { val: 60.0, num: 2, den: 3, bhvr: Behavior::Linear };
    let applied = g.update(&a);
    assert_eq!(applied, [1, 1]);
    assert_eq!(g.prev, 0.0);
    assert_eq!(g.next, 60.0);
    assert_eq!(g.ratemul, [2, 3]);
    assert_eq!(g.behavior, Behavior::GlissMedium);
    assert_eq!(g.next_behavior, Behavior::Linear);

    let b = GestureVertex { val: 65.0, num: 1, den: 4, bhvr: Behavior::Step };
    let applied = g.update(&b);
    assert_eq!(applied, [2, 3]);
    assert_eq!(g.prev, 60.0);
    assert_eq!(g.next, 65.0);
    assert_eq!(g.ratemul, [1, 4]);
    assert_eq!(g.behavior, Behavior::Linear);
    assert_eq!(g.next_behavior, Behavior::Step);
}

#[test]
fn eventful_gesture_applies_pending_events_to_the_vertex() {
    let mut evtgst: EventfulGesture<f32> = EventfulGesture::new(0.0);
    evtgst.scalar(60.).unwrap();
    evtgst.rate([2, 3]).unwrap();
    evtgst.behavior(Behavior::Linear).unwrap();

    // what happens before the first period
    let vtx = evtgst.next_vertex();
    evtgst.update(&vtx);

    assert_eq!(vtx.val, 60.0, "vertex was not set");
    assert!(matches!(vtx.bhvr, Behavior::Linear), "wrong behavior found");
    assert_eq!(vtx.num, 2, "invalid rate: numerator");
    assert_eq!(vtx.den, 3, "invalid rate: denominator");
    assert_eq!(evtgst.vtx.val, 60.0);
    assert!(!evtgst.events.has_events());

    // the first period begins: no event came, so both ends are on 60
    let vtx = evtgst.next_vertex();
    evtgst.update(&vtx);
    assert_eq!(evtgst.gest.prev, evtgst.gest.next, "states do not match");
    assert_eq!(evtgst.gest.next, 60.0);

    // an event queued during a period shows at the start of the next one
    evtgst.scalar(65.).unwrap();
    assert_eq!(evtgst.gest.next, 60.0);
    let vtx = evtgst.next_vertex();
    evtgst.update(&vtx);
    assert_eq!(evtgst.gest.prev, 60.0, "wrong state value: prev");
    assert_eq!(evtgst.gest.next, 65.0, "wrong state value: next");
}

#[test]
fn eventful_gesture_wait_holds_events_back_one_period() {
    let mut evtgst: EventfulGesture<f32> = EventfulGesture::new(0.0);
    evtgst.scalar(60.).unwrap();
    evtgst.rate([1, 1]).unwrap();
    evtgst.behavior(Behavior::Linear).unwrap();
    let vtx = evtgst.next_vertex();
    evtgst.update(&vtx);

    // period A begins
    let vtx = evtgst.next_vertex();
    evtgst.update(&vtx);
    evtgst.wait(1).unwrap();
    evtgst.scalar(65.).unwrap();

    // period B begins: the wait is taken and counted off, the scalar stays
    let vtx = evtgst.next_vertex();
    evtgst.update(&vtx);
    assert_ne!(evtgst.gest.next, 65.0, "Wait did not wait a period as it ought to.");
    assert_eq!(evtgst.wait, 0);
    assert_eq!(evtgst.events.num_events(), 1);

    // period C begins
    let vtx = evtgst.next_vertex();
    evtgst.update(&vtx);
    assert_eq!(evtgst.gest.next, 65.0, "Expected scalar to have been set by now.");
    assert_eq!(evtgst.events.num_events(), 0);
}

#[test]
fn eventful_gesture_longer_wait_counts_down() {
    let mut evtgst: EventfulGesture<u32> = EventfulGesture::new(7);
    evtgst.wait(3).unwrap();
    evtgst.scalar(9).unwrap();
    assert_eq!(evtgst.next_vertex().val, 7);
    assert_eq!(evtgst.wait, 2);
    assert_eq!(evtgst.next_vertex().val, 7);
    assert_eq!(evtgst.wait, 1);
    assert_eq!(evtgst.next_vertex().val, 7);
    assert_eq!(evtgst.wait, 0);
    assert_eq!(evtgst.events.num_events(), 1);
    assert_eq!(evtgst.next_vertex().val, 9);
}

#[test]
fn eventful_gesture_wait_of_zero_holds_nothing() {
    let mut evtgst: EventfulGesture<u32> = EventfulGesture::new(7);
    evtgst.wait(0).unwrap();
    evtgst.scalar(9).unwrap();
    assert_eq!(evtgst.next_vertex().val, 9);
    assert_eq!(evtgst.events.num_events(), 0);
}

#[test]
fn eventful_gesture_reports_a_full_queue() {
    let mut evtgst: EventfulGesture<u32> = EventfulGesture::new(0);
    for i in 0..16 {
        assert_eq!(evtgst.scalar(i), Ok(()));
    }
    assert_eq!(evtgst.scalar(16), Err(QueueError::Overflow));
    assert_eq!(evtgst.rate([1, 2]), Err(QueueError::Overflow));
    assert_eq!(evtgst.behavior(Behavior::Step), Err(QueueError::Overflow));
    assert_eq!(evtgst.wait(1), Err(QueueError::Overflow));
    // the last scalar queued wins
    assert_eq!(evtgst.next_vertex().val, 15);
}

fn three_vertices() -> Vec<GestureVertex<f32>> {
    vec![
        GestureVertex { val: 60.0, num: 1, den: 1, bhvr: Behavior::Linear },
        GestureVertex { val: 62.0, num: 1, den: 2, bhvr: Behavior::Step },
        GestureVertex { val: 64.0, num: 3, den: 2, bhvr: Behavior::GlissLarge },
    ]
}

#[test]
fn linear_gesture_without_path_rests() {
    let mut g: LinearGesture<f32> = LinearGesture::new(0.5);
    let v = g.next_vertex();
    assert_eq!(v.val, 0.5);
    assert_eq!(v.num, 1);
    assert_eq!(v.den, 1);
    assert_eq!(v.bhvr, Behavior::Linear);
}

#[test]
fn linear_gesture_walks_its_path_in_a_loop() {
    let path = three_vertices();
    let mut g: LinearGesture<f32> = LinearGesture::new(0.0);
    let applied = g.init(&path);
    assert_eq!(applied, [1, 1]);
    assert_eq!(g.gest().next, 60.0);
    assert_eq!(g.gest().prev, 0.0);
    assert_eq!(g.gest().ratemul, [1, 1]);

    let expected = [62.0, 64.0, 60.0, 62.0, 64.0, 60.0];
    for want in expected {
        let v = g.next_vertex();
        assert_eq!(v.val, want);
        g.update(&v);
        assert_eq!(g.gest().next, want);
    }
}

#[test]
fn builder_walks_its_path_once_and_holds() {
    let mut b: LinearGestureBuilder<f32> = LinearGestureBuilder::new(0.0);
    assert_eq!(b.done(), None);
    for v in three_vertices() {
        b.append(v);
    }
    assert_eq!(b.len(), 3);
    assert_eq!(b.done(), Some([1, 1]));
    assert_eq!(b.gest().next, 60.0);

    let expected = [62.0, 64.0, 64.0, 64.0];
    for want in expected {
        let v = b.next_vertex();
        assert_eq!(v.val, want);
        b.update(&v);
    }
    assert_eq!(b.gest().prev, 64.0);
    assert_eq!(b.gest().next, 64.0);
    assert_eq!(b.gest().ratemul, [3, 2]);
    assert_eq!(b.gest().next_behavior, Behavior::GlissLarge);
}

#[test]
fn coded_append_ignores_unknown_behaviors() {
    let mut b: LinearGestureBuilder<f32> = LinearGestureBuilder::new(0.0);
    vb_gesture_append(&mut b, 60.0, 1, 2, 4);
    vb_gesture_append(&mut b, 61.0, 1, 2, 7);
    vb_gesture_append(&mut b, 62.0, 3, 4, 0);
    assert_eq!(b.len(), 2);
    let first = b.next_vertex();
    assert_eq!(first.val, 60.0);
    assert_eq!(first.bhvr, Behavior::GlissMedium);
    let second = b.next_vertex();
    assert_eq!(second.val, 62.0);
    assert_eq!(second.num, 3);
    assert_eq!(second.den, 4);
    assert_eq!(second.bhvr, Behavior::Step);
}
