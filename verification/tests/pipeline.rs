use screenshare_agent::pipeline::{
    DropReason, EncodeError, EncodedUnit, FramePipeline, FrameStep, PipelineError, PipelineFault,
    DEFAULT_QUEUE_DEPTH,
};
use screenshare_agent::screen_capture::Frame;

fn frame(sequence: u64) -> Frame {
    Frame { pixels: vec![sequence as u8; 4], timestamp_ms: 1000 + sequence, sequence }
}

fn running(depth: usize) -> FramePipeline {
    let mut pipeline = FramePipeline::new(depth);
    pipeline.start();
    pipeline
}

/// Pulls, encodes and sends one frame; gives the unit that went out.
fn pass(pipeline: &mut FramePipeline, sequence: u64) -> EncodedUnit {
    assert_eq!(pipeline.on_frame(&frame(sequence), 0), FrameStep::Encode);
    let unit = pipeline.on_encoded(Ok(vec![9, 9])).unwrap();
    pipeline.on_send_result(true).unwrap();
    unit
}

#[test]
fn new_pipeline_is_stopped_and_clear() {
    let pipeline = FramePipeline::new(DEFAULT_QUEUE_DEPTH);
    assert_eq!(DEFAULT_QUEUE_DEPTH, 8);
    assert!(!pipeline.is_running());
    assert_eq!(pipeline.max_queue_depth(), 8);
    assert_eq!(pipeline.dropped_frames(), 0);
    assert_eq!(pipeline.sent_frames(), 0);
    assert_eq!(pipeline.last_sequence(), None);
    assert!(!pipeline.has_frame_in_flight());
}

#[test]
fn stopped_pipeline_takes_no_frame_and_counts_none() {
    let mut pipeline = FramePipeline::new(4);
    assert_eq!(pipeline.on_frame(&frame(0), 0), FrameStep::Stopped);
    assert_eq!(pipeline.dropped_frames(), 0);
    assert!(!pipeline.has_frame_in_flight());
}

#[test]
fn frame_becomes_a_unit_with_its_sequence_and_timestamp() {
    let mut pipeline = running(4);
    assert_eq!(pipeline.on_frame(&frame(0), 3), FrameStep::Encode);
    assert!(pipeline.has_frame_in_flight());
    let unit = pipeline.on_encoded(Ok(vec![7, 8, 9])).unwrap();
    assert_eq!(unit, EncodedUnit { payload: vec![7, 8, 9], timestamp_ms: 1000, sequence: 0 });
    assert!(!pipeline.has_frame_in_flight());
    assert_eq!(pipeline.sent_frames(), 1);
    assert_eq!(pipeline.last_sequence(), Some(0));
    assert_eq!(pipeline.on_send_result(true), Ok(()));
    assert!(pipeline.is_running());
}

#[test]
fn sent_sequences_rise_strictly_whatever_is_pulled() {
    let mut pipeline = running(4);
    let pulled = [5u64, 5, 3, 6, 6, 0, 9, 8, 9, 10, u64::MAX, u64::MAX, 11];
    let mut sent = Vec::new();
    for sequence in pulled {
        if pipeline.on_frame(&frame(sequence), 0) == FrameStep::Encode {
            sent.push(pipeline.on_encoded(Ok(vec![])).unwrap().sequence);
        }
    }
    assert_eq!(sent, vec![5, 6, 9, 10, u64::MAX]);
    assert!(sent.windows(2).all(|w| w[0] < w[1]));
    assert_eq!(pipeline.dropped_frames(), 8);
    assert_eq!(pipeline.sent_frames(), 5);
    assert_eq!(pipeline.last_sequence(), Some(u64::MAX));
}

#[test]
fn stale_frame_is_dropped_and_counted() {
    let mut pipeline = running(4);
    assert_eq!(pass(&mut pipeline, 3).sequence, 3);
    assert_eq!(pipeline.on_frame(&frame(3), 0), FrameStep::Dropped(DropReason::Stale));
    assert_eq!(pipeline.on_frame(&frame(2), 0), FrameStep::Dropped(DropReason::Stale));
    assert_eq!(pipeline.dropped_frames(), 2);
    assert_eq!(pipeline.on_frame(&frame(4), 0), FrameStep::Encode);
}

#[test]
fn full_queue_drops_frames_and_counts_them() {
    let mut pipeline = running(2);
    assert_eq!(pipeline.on_frame(&frame(0), 2), FrameStep::Dropped(DropReason::Backpressure));
    assert_eq!(pipeline.on_frame(&frame(1), 3), FrameStep::Dropped(DropReason::Backpressure));
    assert_eq!(pipeline.on_frame(&frame(2), usize::MAX), FrameStep::Dropped(DropReason::Backpressure));
    assert_eq!(pipeline.dropped_frames(), 3);
    assert!(!pipeline.has_frame_in_flight());
    assert_eq!(pipeline.sent_frames(), 0);
    // the queue drains, and frames pass again
    assert_eq!(pipeline.on_frame(&frame(3), 1), FrameStep::Encode);
}

#[test]
fn delayed_transport_only_raises_the_drop_count() {
    let mut pipeline = running(8);
    for sequence in 0..1000u64 {
        assert_eq!(
            pipeline.on_frame(&frame(sequence), 8),
            FrameStep::Dropped(DropReason::Backpressure)
        );
        assert_eq!(pipeline.dropped_frames(), sequence + 1);
        assert!(!pipeline.has_frame_in_flight());
    }
    assert_eq!(pipeline.sent_frames(), 0);
}

#[test]
fn pipeline_of_depth_zero_drops_every_frame() {
    let mut pipeline = running(0);
    assert_eq!(pipeline.on_frame(&frame(0), 0), FrameStep::Dropped(DropReason::Backpressure));
    assert_eq!(pipeline.dropped_frames(), 1);
}

#[test]
fn frame_pulled_while_one_is_at_the_encoder_is_dropped() {
    let mut pipeline = running(4);
    assert_eq!(pipeline.on_frame(&frame(0), 0), FrameStep::Encode);
    assert_eq!(pipeline.on_frame(&frame(1), 0), FrameStep::Dropped(DropReason::Busy));
    assert_eq!(pipeline.on_frame(&frame(2), 9), FrameStep::Dropped(DropReason::Busy));
    assert_eq!(pipeline.dropped_frames(), 2);
    assert_eq!(pipeline.on_encoded(Ok(vec![1])).unwrap().sequence, 0);
}

#[test]
fn encode_failure_drops_the_frame_and_the_pipeline_goes_on() {
    let mut pipeline = running(4);
    assert_eq!(pipeline.on_frame(&frame(0), 0), FrameStep::Encode);
    assert_eq!(
        pipeline.on_encoded(Err(EncodeError { code: 3 })),
        Err(PipelineError { kind: PipelineFault::EncodeFailed })
    );
    assert_eq!(pipeline.dropped_frames(), 1);
    assert_eq!(pipeline.sent_frames(), 0);
    assert_eq!(pipeline.last_sequence(), None);
    assert!(pipeline.is_running());
    assert!(!pipeline.has_frame_in_flight());
    assert_eq!(pass(&mut pipeline, 1).sequence, 1);
}

#[test]
fn encoder_result_without_a_frame_is_refused() {
    let mut pipeline = running(4);
    assert_eq!(
        pipeline.on_encoded(Ok(vec![1])),
        Err(PipelineError { kind: PipelineFault::NoFrameInFlight })
    );
    assert_eq!(
        pipeline.on_encoded(Err(EncodeError { code: 1 })),
        Err(PipelineError { kind: PipelineFault::NoFrameInFlight })
    );
    assert_eq!(pipeline.dropped_frames(), 0);
    assert_eq!(pipeline.sent_frames(), 0);
}

#[test]
fn send_failure_ends_the_phase() {
    let mut pipeline = running(4);
    pass(&mut pipeline, 0);
    assert_eq!(pipeline.on_frame(&frame(1), 0), FrameStep::Encode);
    let unit = pipeline.on_encoded(Ok(vec![1])).unwrap();
    assert_eq!(unit.sequence, 1);
    assert_eq!(
        pipeline.on_send_result(false),
        Err(PipelineError { kind: PipelineFault::SendFailed })
    );
    assert!(!pipeline.is_running());
    assert_eq!(pipeline.sent_frames(), 2);
    assert_eq!(pipeline.last_sequence(), Some(1));
    assert_eq!(pipeline.on_frame(&frame(2), 0), FrameStep::Stopped);
}

#[test]
fn stop_abandons_the_frame_at_the_encoder_and_is_idempotent() {
    let mut pipeline = running(4);
    pass(&mut pipeline, 0);
    assert_eq!(pipeline.on_frame(&frame(1), 4), FrameStep::Dropped(DropReason::Backpressure));
    assert_eq!(pipeline.on_frame(&frame(2), 0), FrameStep::Encode);
    pipeline.stop();
    assert!(!pipeline.is_running());
    assert!(!pipeline.has_frame_in_flight());
    assert_eq!(pipeline.sent_frames(), 1);
    assert_eq!(pipeline.dropped_frames(), 1);
    assert_eq!(
        pipeline.on_encoded(Ok(vec![1])),
        Err(PipelineError { kind: PipelineFault::NoFrameInFlight })
    );
    pipeline.stop();
    assert!(!pipeline.is_running());
    assert_eq!(pipeline.sent_frames(), 1);
    assert_eq!(pipeline.dropped_frames(), 1);
}

#[test]
fn new_phase_starts_clear_and_running_pipeline_is_left_alone() {
    let mut pipeline = running(4);
    pass(&mut pipeline, 7);
    assert_eq!(pipeline.on_frame(&frame(7), 0), FrameStep::Dropped(DropReason::Stale));
    pipeline.start();
    assert_eq!(pipeline.sent_frames(), 1);
    assert_eq!(pipeline.dropped_frames(), 1);
    pipeline.stop();
    pipeline.start();
    assert!(pipeline.is_running());
    assert_eq!(pipeline.sent_frames(), 0);
    assert_eq!(pipeline.dropped_frames(), 0);
    assert_eq!(pipeline.last_sequence(), None);
    assert_eq!(pipeline.max_queue_depth(), 4);
    assert_eq!(pass(&mut pipeline, 0).sequence, 0);
}

#[test]
fn pipeline_fault_messages() {
    let texts = [
        (PipelineFault::EncodeFailed, "Frame could not be encoded"),
        (PipelineFault::SendFailed, "Frame could not be sent"),
        (PipelineFault::NoFrameInFlight, "No frame is being encoded"),
    ];
    for (kind, text) in texts {
        assert_eq!(PipelineError { kind }.message(), text);
        assert_eq!(PipelineError { kind }.describe(), format!("PipelineError: {}", text));
    }
}

#[test]
fn queue_stays_within_its_bound_while_sends_are_delayed() {
    // the transport takes nothing off its queue: every unit handed over stays in it
    let mut pipeline = running(3);
    let mut queued = 0usize;
    for sequence in 0..50u64 {
        if pipeline.on_frame(&frame(sequence), queued) == FrameStep::Encode {
            pipeline.on_encoded(Ok(vec![1])).unwrap();
            queued += 1;
        }
        assert!(queued <= 3);
    }
    assert_eq!(queued, 3);
    assert_eq!(pipeline.sent_frames(), 3);
    assert_eq!(pipeline.dropped_frames(), 47);
}
