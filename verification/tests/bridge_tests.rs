use trackpad_rs::{
    enqueue_batch, frame_return_code, has_records, DeviceAttrs, HandlerOutcome, MTDevice, MTPoint,
    MTTouch, MTTouchState, MTVector,
};

fn record(finger_id: i32) -> MTTouch {
    MTTouch {
        frame: 1,
        timestamp: 2.5f64.to_bits(),
        identifier: 100 + finger_id,
        state: MTTouchState::Touching,
        finger_id,
        hand_id: 0,
        normalized: MTVector {
            pos: MTPoint {
                x: 0.5f32.to_bits(),
                y: 0.5f32.to_bits(),
            },
            vel: MTPoint {
                x: 0.0f32.to_bits(),
                y: 0.0f32.to_bits(),
            },
        },
        z_total: 0.0f32.to_bits(),
        unknown3: 0,
        angle: 0.0f32.to_bits(),
        major_axis: 0.0f32.to_bits(),
        minor_axis: 0.0f32.to_bits(),
        absolute: MTVector {
            pos: MTPoint {
                x: 100.0f32.to_bits(),
                y: 50.0f32.to_bits(),
            },
            vel: MTPoint {
                x: 0.0f32.to_bits(),
                y: 0.0f32.to_bits(),
            },
        },
        unknown4: 0,
        unknown5: 0,
        z_density: 0.0f32.to_bits(),
    }
}

#[test]
fn only_positive_counts_are_deliverable() {
    assert!(!has_records(0));
    assert!(!has_records(-1));
    assert!(!has_records(i32::MIN));
    assert!(has_records(1));
    assert!(has_records(11));
}

#[test]
fn return_codes_distinguish_success_from_contained_panic() {
    assert_eq!(frame_return_code(HandlerOutcome::Completed), 0);
    assert_eq!(frame_return_code(HandlerOutcome::Panicked), -1);
    assert_ne!(
        frame_return_code(HandlerOutcome::Completed),
        frame_return_code(HandlerOutcome::Panicked)
    );
}

#[test]
fn zero_count_batch_invokes_nothing_and_enqueues_nothing() {
    // Direct-handler variant: a zero count means the pointer is never touched.
    let mut invocations: Vec<Vec<MTTouch>> = Vec::new();
    if has_records(0) {
        invocations.push(vec![record(0)]);
    }
    assert!(invocations.is_empty());
    // Channel variant: an empty batch adds no message.
    let mut queue: Vec<MTTouch> = Vec::new();
    enqueue_batch(&mut queue, &Vec::new());
    assert!(queue.is_empty());
    // And it leaves earlier messages untouched.
    queue.push(record(7));
    enqueue_batch(&mut queue, &Vec::new());
    assert_eq!(queue, vec![record(7)]);
}

#[test]
fn batch_fans_out_one_message_per_record_in_order() {
    let batch = vec![record(0), record(1), record(2)];
    let mut queue: Vec<MTTouch> = Vec::new();
    enqueue_batch(&mut queue, &batch);
    assert_eq!(queue.len(), 3);
    for (i, rec) in queue.iter().enumerate() {
        assert_eq!(rec.finger_id, i as i32);
        assert_eq!(*rec, batch[i]);
    }
}

// A bridge loop as the unverified shell would run it for one device: gate
// on the count, deliver the batch, convert the boundary's report into the
// native return code.
fn run_bridge(
    log: &mut Vec<Vec<MTTouch>>,
    batch: &[MTTouch],
    outcome: HandlerOutcome,
) -> i32 {
    if has_records(batch.len() as i32) {
        log.push(batch.to_vec());
    }
    frame_return_code(outcome)
}

#[test]
fn panic_on_one_batch_does_not_block_the_next() {
    let mut log: Vec<Vec<MTTouch>> = Vec::new();
    let first = [record(0)];
    let second = [record(1)];
    // The handler panics on the first batch; the boundary contains it and
    // reports the failure sentinel to the native caller.
    assert_eq!(run_bridge(&mut log, &first, HandlerOutcome::Panicked), -1);
    // The next batch is still delivered to the same device.
    assert_eq!(run_bridge(&mut log, &second, HandlerOutcome::Completed), 0);
    assert_eq!(log.len(), 2);
    assert_eq!(log[1], vec![record(1)]);
}

#[test]
fn panic_on_one_device_leaves_another_device_untouched() {
    let mut log_a: Vec<Vec<MTTouch>> = Vec::new();
    let mut log_b: Vec<Vec<MTTouch>> = Vec::new();
    assert_eq!(run_bridge(&mut log_a, &[record(0)], HandlerOutcome::Panicked), -1);
    assert_eq!(run_bridge(&mut log_b, &[record(5)], HandlerOutcome::Completed), 0);
    assert_eq!(log_a.len(), 1);
    assert_eq!(log_b.len(), 1);
    assert_eq!(log_b[0], vec![record(5)]);
}

#[test]
fn end_to_end_one_device_one_batch_of_three() {
    let attrs = DeviceAttrs {
        device_id: 1,
        family_id: 99,
        builtin: true,
        driver_type: 4,
        sensor_rows: 30,
        sensor_cols: 46,
        surface_x: 1050,
        surface_y: 620,
    };
    // Enumerate one builtin device.
    let mut ds = MTDevice::devices(vec![(1, attrs)]);
    assert_eq!(ds.len(), 1);
    assert_eq!(
        ds[0].device_type(),
        trackpad_rs::DeviceType::InternalTrackpad
    );
    // Register a handler and start.
    assert_eq!(ds[0].listen(1), Ok(()));
    ds[0].confirm_started(true);
    assert_eq!(ds[0].current_target(), Some(1));
    // One native callback with three records, ascending finger ids: the
    // handler sees exactly one call with the three records in that order.
    let batch = [record(0), record(1), record(2)];
    let mut log: Vec<Vec<MTTouch>> = Vec::new();
    assert_eq!(run_bridge(&mut log, &batch, HandlerOutcome::Completed), 0);
    assert_eq!(log.len(), 1);
    assert_eq!(log[0].len(), 3);
    for (i, rec) in log[0].iter().enumerate() {
        assert_eq!(rec.finger_id, i as i32);
    }
}
