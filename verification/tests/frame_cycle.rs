use yuumi::error::EngineError;
use yuumi::frame::{
    AcquireDecision, AcquireOutcome, FrameCycle, FramePhase, PresentDecision, PresentOutcome,
    MAX_FRAMES_IN_FLIGHT,
};
use yuumi::metrics::{Cycle, CycleReport, Metrics, CYCLE_REPORT_INTERVAL_MICROS};
use yuumi::swapchain::{choose_image_count, Extent2D, SurfaceCapabilities};

#[test]
fn five_frames_cycle_through_two_slots() {
    // Resolve the image count the way swapchain creation does: the surface
    // asks for at least 2 images with no cap, so 3 are requested.
    let caps = SurfaceCapabilities {
        min_image_count: 2,
        max_image_count: 0,
        current_extent: Extent2D { width: 1600, height: 900 },
        min_image_extent: Extent2D { width: 1, height: 1 },
        max_image_extent: Extent2D { width: 4096, height: 4096 },
    };
    let image_count = choose_image_count(&caps);
    assert_eq!(image_count, 3);

    let mut cycle = FrameCycle::new(MAX_FRAMES_IN_FLIGHT, image_count as usize);
    assert_eq!(cycle.phase, FramePhase::Idle);
    let mut slots = Vec::new();
    for frame in 0..5u32 {
        slots.push(cycle.frame_slot);
        // Step 1: wait this slot's fence; the wait makes the slot free,
        // so each slot's fence is observed before its reuse.
        cycle.observe_current_fence();
        // Acquire cycles through the three images.
        let image_index = (frame % 3) as usize;
        match cycle.decide_acquire(AcquireOutcome::Image(image_index as u32)) {
            AcquireDecision::Proceed(i) => assert_eq!(i as usize, image_index),
            other => panic!("unexpected decision {:?}", other),
        }
        // Step 3: wait the image's own fence if a prior frame still owns it.
        if cycle.image_fence(image_index).is_some() {
            cycle.observe_image_fence(image_index);
        }
        // Step 4: the image now belongs to this frame.
        cycle.bind_image(image_index);
        // Step 7: reset the fence and submit.
        cycle.submit_current();
        // Step 9: next slot.
        cycle.advance();
        assert_eq!(cycle.phase, FramePhase::Idle);
    }
    assert_eq!(slots, vec![0, 1, 0, 1, 0]);
}

#[test]
fn image_fence_tracks_owning_slot() {
    let mut cycle = FrameCycle::new(2, 3);
    assert_eq!(cycle.image_fence(0), None);
    cycle.observe_current_fence();
    cycle.bind_image(0);
    cycle.submit_current();
    cycle.advance();
    // Image 0 is guarded by slot 0's fence until that fence is observed.
    assert_eq!(cycle.image_fence(0), Some(0));
    cycle.observe_current_fence();
    cycle.observe_image_fence(0);
    cycle.bind_image(0);
    assert_eq!(cycle.image_fence(0), Some(1));
}

#[test]
fn acquire_decisions_follow_the_report() {
    let mut cycle = FrameCycle::new(2, 3);
    cycle.observe_current_fence();
    assert_eq!(cycle.decide_acquire(AcquireOutcome::Image(2)), AcquireDecision::Proceed(2));
    assert_eq!(
        cycle.decide_acquire(AcquireOutcome::Image(3)),
        AcquireDecision::Fail(EngineError::InvalidImageIndex)
    );
    assert_eq!(cycle.decide_acquire(AcquireOutcome::OutOfDate), AcquireDecision::Recreate);
    assert_eq!(
        cycle.decide_acquire(AcquireOutcome::Error),
        AcquireDecision::Fail(EngineError::AcquireFailed)
    );
    // An out-of-date acquire abandons the frame before recording.
    cycle.abort_frame();
    assert_eq!(cycle.phase, FramePhase::Idle);
}

#[test]
fn present_decisions_follow_the_report() {
    let mut cycle = FrameCycle::new(2, 3);
    cycle.observe_current_fence();
    cycle.bind_image(0);
    cycle.submit_current();
    assert_eq!(cycle.decide_present(PresentOutcome::Presented, false), PresentDecision::Continue);
    assert_eq!(cycle.decide_present(PresentOutcome::Presented, true), PresentDecision::Recreate);
    assert_eq!(cycle.decide_present(PresentOutcome::Suboptimal, false), PresentDecision::Recreate);
    assert_eq!(cycle.decide_present(PresentOutcome::OutOfDate, false), PresentDecision::Recreate);
    assert_eq!(cycle.decide_present(PresentOutcome::Error, false), PresentDecision::Fail);
}

#[test]
fn recreate_clears_stale_image_fences() {
    let mut cycle = FrameCycle::new(2, 3);
    cycle.observe_current_fence();
    cycle.bind_image(1);
    cycle.submit_current();
    assert_eq!(cycle.image_fence(1), Some(0));
    // The rebuilt swapchain has 4 images and no fence may carry over.
    cycle.reset_images(4);
    for i in 0..4 {
        assert_eq!(cycle.image_fence(i), None);
    }
}

#[test]
fn cycle_accumulates_and_reports() {
    let mut cycle = Cycle::new(0);
    cycle.start_frame(100);
    assert_eq!(cycle.end_frame(250), None);
    assert_eq!(cycle.total_frames, 1);
    assert_eq!(cycle.total_render, 150);
    assert_eq!(cycle.slowest_render, 150);
    assert_eq!(cycle.fastest_render, 150);

    cycle.start_frame(300);
    let report_at = CYCLE_REPORT_INTERVAL_MICROS + 350;
    let report = cycle.end_frame(report_at).unwrap();
    let second = report_at - 300;
    assert_eq!(report, CycleReport {
        slowest: second,
        fastest: 150,
        average: (150 + second) / 2,
        frames: 2,
    });
    // The cycle restarted at the report.
    assert_eq!(cycle.total_frames, 0);
    assert_eq!(cycle.start, report_at);
}

#[test]
fn cycle_restart_resets_the_window() {
    let mut cycle = Cycle::new(0);
    cycle.start(500);
    cycle.start_frame(600);
    // Only 200 microseconds into the restarted window: no report yet.
    assert_eq!(cycle.end_frame(700), None);
}

#[test]
fn metrics_count_total_frames() {
    let mut metrics = Metrics::new(42);
    assert_eq!(metrics.engine_start, 42);
    metrics.count_frame();
    metrics.count_frame();
    assert_eq!(metrics.total_frames, 2);
}
