use asteroids::draw::{plan_draws, DrawCall};
use asteroids::geometry::Extent;
use asteroids::scheduler::{
    AcquireOutcome, FlushOutcome, FrameFuture, FrameOutcome, FrameScheduler, FrameStep, FramebufferSet,
    FutureKind, RecreateOutcome, SwapchainState,
};

fn fresh(width: u32, height: u32) -> FrameScheduler {
    FrameScheduler::new(Extent::new(width, height), 3)
}

/// Runs one frame with the given outside results; returns the submitted image
/// and how the frame ended.
fn frame(
    s: &mut FrameScheduler,
    window: Extent,
    recreate: RecreateOutcome,
    acquire: AcquireOutcome,
    flush: FlushOutcome,
) -> (Option<usize>, FrameOutcome) {
    let mut step = s.begin_frame(window);
    if let FrameStep::Recreate { extent } = step {
        step = s.recreate_finished(extent, recreate);
    }
    if step == FrameStep::Acquire {
        step = s.acquire_finished(acquire);
    }
    match step {
        FrameStep::Submit { image_index, .. } => (Some(image_index), s.flush_finished(flush)),
        FrameStep::End { outcome } => (None, outcome),
        other => panic!("unexpected step {:?}", other),
    }
}

fn acquired(image_index: usize) -> AcquireOutcome {
    AcquireOutcome::Acquired { image_index, suboptimal: false }
}

#[test]
fn new_scheduler_matches_swapchain() {
    let s = fresh(800, 600);
    assert_eq!(s.swapchain, SwapchainState { extent: Extent::new(800, 600), image_count: 3 });
    assert_eq!(s.framebuffers, FramebufferSet { extent: Extent::new(800, 600), count: 3 });
    assert_eq!(s.viewport, Extent::new(800, 600));
    assert!(!s.recreate_swapchain);
    assert_eq!(s.previous_frame_end, FrameFuture { id: 0, kind: FutureKind::Immediate });
}

#[test]
fn scenario_single_instance_frame() {
    let mut s = fresh(800, 600);
    let window = Extent::new(800, 600);
    assert_eq!(s.begin_frame(window), FrameStep::Acquire);
    assert_eq!(
        s.acquire_finished(acquired(0)),
        FrameStep::Submit { image_index: 0, wait_on: FrameFuture { id: 0, kind: FutureKind::Immediate } }
    );
    let batches = vec![vec![(0.0f32, 0.0f32, 0.0f32, 0.05f32)]];
    assert_eq!(plan_draws(&batches), vec![DrawCall { batch: 0, instance_count: 1 }]);
    assert_eq!(s.flush_finished(FlushOutcome::Flushed), FrameOutcome::Presented);
    assert!(!s.recreate_swapchain);
    assert_eq!(s.previous_frame_end, FrameFuture { id: 1, kind: FutureKind::Fence });
    assert_eq!(s.swapchain.extent, window);
}

#[test]
fn scenario_resize_between_frames() {
    let mut s = fresh(800, 600);
    let r1 = frame(&mut s, Extent::new(800, 600), RecreateOutcome::Failed, acquired(1), FlushOutcome::Flushed);
    assert_eq!(r1, (Some(1), FrameOutcome::Presented));
    let after_first = s;
    s.notify_resized();
    assert!(s.recreate_swapchain);
    let window = Extent::new(640, 480);
    assert_eq!(s.begin_frame(window), FrameStep::Recreate { extent: window });
    assert_eq!(s.recreate_finished(window, RecreateOutcome::Created { image_count: 3 }), FrameStep::Acquire);
    assert_eq!(s.framebuffers, FramebufferSet { extent: window, count: 3 });
    assert_eq!(s.viewport, window);
    assert!(!s.recreate_swapchain);
    assert_eq!(after_first.swapchain.extent, Extent::new(800, 600));
    assert_eq!(after_first.previous_frame_end.kind, FutureKind::Fence);
}

#[test]
fn scenario_resize_unsupported_keeps_flag() {
    let mut s = fresh(800, 600);
    s.notify_resized();
    let window = Extent::new(640, 480);
    let r = frame(&mut s, window, RecreateOutcome::UnsupportedDimensions, acquired(0), FlushOutcome::Flushed);
    assert_eq!(r, (None, FrameOutcome::RecreateSkipped));
    assert!(s.recreate_swapchain);
    assert_eq!(s.framebuffers.extent, Extent::new(800, 600));
    assert_eq!(s.previous_frame_end, FrameFuture { id: 1, kind: FutureKind::Joined });
    let r = frame(&mut s, window, RecreateOutcome::Created { image_count: 2 }, acquired(1), FlushOutcome::Flushed);
    assert_eq!(r, (Some(1), FrameOutcome::Presented));
    assert_eq!(s.framebuffers, FramebufferSet { extent: window, count: 2 });
    assert!(!s.recreate_swapchain);
}

#[test]
fn scenario_acquire_out_of_date_then_recovers() {
    let mut s = fresh(800, 600);
    let window = Extent::new(800, 600);
    let before = s.previous_frame_end;
    let r = frame(&mut s, window, RecreateOutcome::Failed, AcquireOutcome::OutOfDate, FlushOutcome::Flushed);
    assert_eq!(r, (None, FrameOutcome::AcquireOutOfDate));
    assert!(s.recreate_swapchain);
    assert_ne!(s.previous_frame_end, before);
    assert_eq!(s.previous_frame_end, FrameFuture { id: 1, kind: FutureKind::Joined });
    let r = frame(&mut s, window, RecreateOutcome::Created { image_count: 3 }, acquired(2), FlushOutcome::Flushed);
    assert_eq!(r, (Some(2), FrameOutcome::Presented));
    assert!(!s.recreate_swapchain);
    assert_eq!(s.previous_frame_end, FrameFuture { id: 2, kind: FutureKind::Fence });
}

#[test]
fn suboptimal_presents_and_asks_for_rebuild() {
    let mut s = fresh(800, 600);
    let sub = AcquireOutcome::Acquired { image_index: 2, suboptimal: true };
    let r = frame(&mut s, Extent::new(800, 600), RecreateOutcome::Failed, sub, FlushOutcome::Flushed);
    assert_eq!(r, (Some(2), FrameOutcome::Presented));
    assert!(s.recreate_swapchain);
    assert_eq!(s.begin_frame(Extent::new(801, 600)), FrameStep::Recreate { extent: Extent::new(801, 600) });
}

#[test]
fn every_submitted_frame_has_a_new_future() {
    let mut s = fresh(800, 600);
    let window = Extent::new(800, 600);
    let mut ids = Vec::new();
    for flush in [FlushOutcome::Flushed, FlushOutcome::Failed, FlushOutcome::OutOfDate, FlushOutcome::Flushed] {
        let before = s.previous_frame_end;
        let r = frame(&mut s, window, RecreateOutcome::Created { image_count: 3 }, acquired(0), flush);
        assert!(r.0.is_some());
        assert_ne!(s.previous_frame_end, before);
        ids.push(s.previous_frame_end.id);
    }
    assert_eq!(ids, vec![1, 2, 3, 4]);
}

#[test]
fn future_id_wraps_without_repeating() {
    let mut s = fresh(800, 600);
    s.previous_frame_end = FrameFuture { id: u64::MAX, kind: FutureKind::Fence };
    assert_eq!(s.flush_finished(FlushOutcome::Flushed), FrameOutcome::Presented);
    assert_eq!(s.previous_frame_end, FrameFuture { id: 0, kind: FutureKind::Fence });
}

#[test]
fn flush_out_of_date_substitutes_complete_future() {
    let mut s = fresh(800, 600);
    assert_eq!(s.flush_finished(FlushOutcome::OutOfDate), FrameOutcome::PresentOutOfDate);
    assert!(s.recreate_swapchain);
    assert_eq!(s.previous_frame_end, FrameFuture { id: 1, kind: FutureKind::Immediate });
}

#[test]
fn flush_failure_is_not_fatal() {
    let mut s = fresh(800, 600);
    let out = s.flush_finished(FlushOutcome::Failed);
    assert_eq!(out, FrameOutcome::FlushFailed);
    assert!(!out.is_fatal());
    assert!(!s.recreate_swapchain);
    assert_eq!(s.previous_frame_end, FrameFuture { id: 1, kind: FutureKind::Immediate });
}

#[test]
fn fatal_outcomes() {
    let mut s = fresh(800, 600);
    s.notify_resized();
    let r = frame(&mut s, Extent::new(10, 10), RecreateOutcome::Failed, acquired(0), FlushOutcome::Flushed);
    assert_eq!(r, (None, FrameOutcome::RecreateFailed));
    assert!(r.1.is_fatal());
    let mut s = fresh(800, 600);
    let r = frame(&mut s, Extent::new(800, 600), RecreateOutcome::Failed, AcquireOutcome::Failed, FlushOutcome::Flushed);
    assert_eq!(r, (None, FrameOutcome::AcquireFailed));
    assert!(r.1.is_fatal());
    assert!(!FrameOutcome::Presented.is_fatal());
    assert!(!FrameOutcome::AcquireOutOfDate.is_fatal());
}

#[test]
fn image_index_without_framebuffer_is_fatal() {
    let mut s = fresh(800, 600);
    assert_eq!(s.acquire_finished(acquired(3)), FrameStep::End { outcome: FrameOutcome::AcquireFailed });
}

#[test]
fn rebuilding_twice_at_same_size_is_stable() {
    let mut s = fresh(800, 600);
    let window = Extent::new(1024, 768);
    s.notify_resized();
    frame(&mut s, window, RecreateOutcome::Created { image_count: 3 }, acquired(0), FlushOutcome::Flushed);
    let first = (s.swapchain, s.framebuffers, s.viewport);
    s.notify_resized();
    frame(&mut s, window, RecreateOutcome::Created { image_count: 3 }, acquired(0), FlushOutcome::Flushed);
    assert_eq!((s.swapchain, s.framebuffers, s.viewport), first);
    assert_eq!(first.1.extent, window);
}

#[test]
fn draws_match_batch_lengths() {
    let batches: Vec<Vec<u8>> = vec![vec![1], vec![], vec![1, 2, 3]];
    let plan = plan_draws(&batches);
    assert_eq!(
        plan,
        vec![DrawCall { batch: 0, instance_count: 1 }, DrawCall { batch: 2, instance_count: 3 }]
    );
    let empty: Vec<Vec<u8>> = vec![vec![], vec![]];
    assert!(plan_draws(&empty).is_empty());
    let none: Vec<Vec<u8>> = Vec::new();
    assert!(plan_draws(&none).is_empty());
}

#[test]
fn second_frame_waits_on_first_frames_token() {
    let mut s = fresh(800, 600);
    let r1 = frame(&mut s, Extent::new(800, 600), RecreateOutcome::Failed, acquired(0), FlushOutcome::Flushed);
    assert_eq!(r1, (Some(0), FrameOutcome::Presented));
    let first_token = s.previous_frame_end;
    s.notify_resized();
    let window = Extent::new(640, 480);
    assert_eq!(s.begin_frame(window), FrameStep::Recreate { extent: window });
    assert_eq!(s.recreate_finished(window, RecreateOutcome::Created { image_count: 3 }), FrameStep::Acquire);
    assert_eq!(s.acquire_finished(acquired(1)), FrameStep::Submit { image_index: 1, wait_on: first_token });
}

#[test]
fn dropped_frames_replace_the_token() {
    let mut s = fresh(800, 600);
    s.notify_resized();
    let mut ids = Vec::new();
    for _ in 0..3 {
        let before = s.previous_frame_end;
        let r = frame(&mut s, Extent::new(5, 5), RecreateOutcome::UnsupportedDimensions, acquired(0), FlushOutcome::Flushed);
        assert_eq!(r, (None, FrameOutcome::RecreateSkipped));
        assert_ne!(s.previous_frame_end, before);
        ids.push(s.previous_frame_end.id);
    }
    assert_eq!(ids, vec![1, 2, 3]);
    assert_eq!(s.previous_frame_end.kind, FutureKind::Joined);
}
