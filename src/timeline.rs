use vstd::prelude::*;
use crate::geometry::Extent;
use crate::scheduler::{
    next_future_id, AcquireOutcome, FlushOutcome, FrameFuture, FrameOutcome, FrameScheduler, FrameStep,
    FramebufferSet, FutureKind, RecreateOutcome, SwapchainState,
};

verus! {

/// What the outside work of one frame reports, step by step. A step that the
/// frame does not reach leaves its entry unread.
#[derive(Clone, Copy, Debug, PartialEq, Eq, Structural)]
pub struct FrameInputs {
    pub recreate: RecreateOutcome,
    pub acquire: AcquireOutcome,
    pub flush: FlushOutcome,
}

/// What one frame did: the image it submitted and presented, if any, the
/// completion token that submission waited on, and how it ended.
#[derive(Clone, Copy, Debug, PartialEq, Eq, Structural)]
pub struct FrameReport {
    pub submitted: Option<usize>,
    pub waited_on: Option<FrameFuture>,
    pub outcome: FrameOutcome,
}

/// The window events that the scheduler consumes.
#[derive(Clone, Copy, Debug, PartialEq, Eq, Structural)]
pub enum LoopEvent {
    Resized,
    Redraw { window: Extent, inputs: FrameInputs },
}

/// One whole frame, with the window at size `window`: the steps that
/// `begin_frame`, `recreate_finished`, `acquire_finished` and
/// `flush_finished` take, each on what the one before handed on.
pub open spec fn redraw_spec(s: FrameScheduler, window: Extent, inputs: FrameInputs) -> (FrameScheduler, FrameReport) {
    let (s1, step1) = match s.begin_spec(window) {
        FrameStep::Recreate { extent } => s.recreate_spec(extent, inputs.recreate),
        other => (s, other),
    };
    let (s2, step2) = match step1 {
        FrameStep::Acquire => s1.acquire_spec(inputs.acquire),
        other => (s1, other),
    };
    match step2 {
        FrameStep::Submit { image_index, wait_on } => {
            let (s3, outcome) = s2.flush_spec(inputs.flush);
            (s3, FrameReport { submitted: Some(image_index), waited_on: Some(wait_on), outcome })
        },
        FrameStep::End { outcome } => (s2, FrameReport { submitted: None, waited_on: None, outcome }),
        // Not reached: after the acquire step no rebuild or acquire is pending.
        _ => (s2, FrameReport { submitted: None, waited_on: None, outcome: FrameOutcome::AcquireFailed }),
    }
}

/// The scheduler after a sequence of window events.
pub open spec fn run_spec(s: FrameScheduler, events: Seq<LoopEvent>) -> FrameScheduler
    decreases events.len(),
{
    if events.len() == 0 {
        s
    } else {
        let before = run_spec(s, events.drop_last());
        match events.last() {
            LoopEvent::Resized => before.resized_spec(),
            LoopEvent::Redraw { window, inputs } => redraw_spec(before, window, inputs).0,
        }
    }
}

/// A rebuild that succeeds reports at least one image, as every swapchain has.
pub open spec fn valid_inputs(inputs: FrameInputs) -> bool {
    inputs.recreate matches RecreateOutcome::Created { image_count } ==> image_count > 0
}

pub open spec fn valid_event(e: LoopEvent) -> bool {
    e matches LoopEvent::Redraw { inputs, .. } ==> valid_inputs(inputs)
}

/// A frame reaches the acquire step: no rebuild was pending, or it succeeded.
pub open spec fn reaches_acquire(s: FrameScheduler, inputs: FrameInputs) -> bool {
    !s.recreate_swapchain || inputs.recreate is Created
}

/// A successful rebuild sizes the swapchain, the framebuffers and the
/// viewport to the window size observed by that frame, one framebuffer per
/// image.
pub proof fn lemma_rebuild_follows_window(s: FrameScheduler, window: Extent, inputs: FrameInputs)
    requires
        s.recreate_swapchain,
        inputs.recreate is Created,
    ensures
        ({
            let t = redraw_spec(s, window, inputs).0;
            &&& t.swapchain == (SwapchainState { extent: window, image_count: inputs.recreate->image_count })
            &&& t.framebuffers == (FramebufferSet { extent: window, count: inputs.recreate->image_count })
            &&& t.viewport == window
        }),
{
}

/// Rebuilding twice at the same window size, with a resize between, gives
/// swapchain images, framebuffers and viewport of the same size; with the same
/// number of images, the same swapchain and framebuffers.
pub proof fn lemma_rebuild_idempotent(s: FrameScheduler, window: Extent, first: FrameInputs, second: FrameInputs)
    requires
        s.recreate_swapchain,
        first.recreate is Created,
        second.recreate is Created,
    ensures
        ({
            let t1 = redraw_spec(s, window, first).0;
            let t2 = redraw_spec(t1.resized_spec(), window, second).0;
            &&& t2.swapchain.extent == t1.swapchain.extent
            &&& t2.framebuffers.extent == t1.framebuffers.extent
            &&& t2.viewport == t1.viewport
            &&& second.recreate == first.recreate ==> t2.swapchain == t1.swapchain && t2.framebuffers == t1.framebuffers
        }),
{
}

/// A frame keeps the swapchain, framebuffers and viewport in step.
pub proof fn lemma_redraw_keeps_wf(s: FrameScheduler, window: Extent, inputs: FrameInputs)
    requires
        s.wf(),
        valid_inputs(inputs),
    ensures
        redraw_spec(s, window, inputs).0.wf(),
{
}

/// Whatever sequence of resizes and frames, the framebuffers always match the
/// swapchain one for one and in size, and the viewport covers them.
pub proof fn lemma_run_keeps_wf(s: FrameScheduler, events: Seq<LoopEvent>)
    requires
        s.wf(),
        forall|k: int| 0 <= k < events.len() ==> valid_event(#[trigger] events[k]),
    ensures
        run_spec(s, events).wf(),
    decreases events.len(),
{
    if events.len() > 0 {
        lemma_run_keeps_wf(s, events.drop_last());
        let before = run_spec(s, events.drop_last());
        if let LoopEvent::Redraw { window, inputs } = events.last() {
            lemma_redraw_keeps_wf(before, window, inputs);
        }
    }
}

/// Whatever sequence of resizes and frames, the swapchain only changes size
/// in a frame whose rebuild succeeded, and then to that frame's window size.
pub proof fn lemma_resize_changes_nothing_until_rebuild(s: FrameScheduler, events: Seq<LoopEvent>)
    requires
        events.len() > 0,
    ensures
        ({
            let before = run_spec(s, events.drop_last());
            let after = run_spec(s, events);
            after.swapchain != before.swapchain ==> (events.last() matches LoopEvent::Redraw { window, inputs }
                && before.recreate_swapchain && inputs.recreate is Created && after.swapchain.extent == window)
        }),
{
}

/// An out-of-date acquire drops the frame: nothing is submitted or
/// presented, a rebuild is pending for the next frame, and the completion
/// token is replaced.
pub proof fn lemma_acquire_out_of_date_drops_frame(s: FrameScheduler, window: Extent, inputs: FrameInputs)
    requires
        inputs.acquire is OutOfDate,
    ensures
        ({
            let (t, report) = redraw_spec(s, window, inputs);
            &&& report.submitted is None
            &&& t.recreate_swapchain
            &&& forall|next: Extent| t.begin_spec(next) == (FrameStep::Recreate { extent: next })
            &&& t.previous_frame_end != s.previous_frame_end
        }),
{
}

/// A suboptimal acquire still submits and presents the acquired image, and a
/// rebuild is pending for the next frame.
pub proof fn lemma_suboptimal_still_presents(s: FrameScheduler, window: Extent, inputs: FrameInputs, image_index: usize)
    requires
        reaches_acquire(s, inputs),
        inputs.acquire == (AcquireOutcome::Acquired { image_index, suboptimal: true }),
        image_index < redraw_spec(s, window, inputs).0.framebuffers.count,
    ensures
        ({
            let (t, report) = redraw_spec(s, window, inputs);
            &&& report.submitted == Some(image_index)
            &&& t.recreate_swapchain
            &&& forall|next: Extent| t.begin_spec(next) == (FrameStep::Recreate { extent: next })
        }),
{
}

/// Every frame leaves behind a new completion token, never the one it found:
/// a submitting frame its own fence (or an already complete future where the
/// flush failed), a dropped frame the old token joined with a complete one.
pub proof fn lemma_new_future_each_frame(s: FrameScheduler, window: Extent, inputs: FrameInputs)
    ensures
        ({
            let (t, report) = redraw_spec(s, window, inputs);
            &&& t.previous_frame_end.id == next_future_id(s.previous_frame_end.id)
            &&& t.previous_frame_end.id != s.previous_frame_end.id
            &&& report.submitted is None ==> t.previous_frame_end.kind == FutureKind::Joined
        }),
{
}

/// A frame that submits waits on the completion token that the frame before
/// it left behind, whether or not the window was resized between them; so
/// its work is chained after the earlier frame's work.
pub proof fn lemma_frames_chain(s: FrameScheduler, w1: Extent, i1: FrameInputs, resized: bool, w2: Extent, i2: FrameInputs)
    ensures
        ({
            let t1 = redraw_spec(s, w1, i1).0;
            let start = if resized { t1.resized_spec() } else { t1 };
            let report = redraw_spec(start, w2, i2).1;
            report.submitted is Some ==> report.waited_on == Some(t1.previous_frame_end)
        }),
{
}

} // verus!
