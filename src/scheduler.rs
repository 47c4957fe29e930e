use vstd::prelude::*;
use crate::geometry::Extent;

verus! {

/// The variants of a completion future: one that is already complete, one
/// that a fence on the device timeline completes, or the previous token
/// joined with an already complete one, which a frame that submits nothing
/// leaves behind.
#[derive(Clone, Copy, Debug, PartialEq, Eq, Structural)]
pub enum FutureKind {
    Immediate,
    Fence,
    Joined,
}

/// The completion token of the last frame's GPU work. `id` tells one token
/// from the token it replaced.
#[derive(Clone, Copy, Debug, PartialEq, Eq, Structural)]
pub struct FrameFuture {
    pub id: u64,
    pub kind: FutureKind,
}

/// The current swapchain generation: its image size and number of images.
#[derive(Clone, Copy, Debug, PartialEq, Eq, Structural)]
pub struct SwapchainState {
    pub extent: Extent,
    pub image_count: usize,
}

/// The render targets built over the swapchain images, one per image.
#[derive(Clone, Copy, Debug, PartialEq, Eq, Structural)]
pub struct FramebufferSet {
    pub extent: Extent,
    pub count: usize,
}

/// What rebuilding the swapchain at a requested size gave.
#[derive(Clone, Copy, Debug, PartialEq, Eq, Structural)]
pub enum RecreateOutcome {
    /// A new swapchain with that many images, at the requested size.
    Created { image_count: usize },
    /// The platform refused the size, as it does in the middle of a resize.
    UnsupportedDimensions,
    /// Any other failure.
    Failed,
}

/// What asking the swapchain for the next image gave.
#[derive(Clone, Copy, Debug, PartialEq, Eq, Structural)]
pub enum AcquireOutcome {
    Acquired { image_index: usize, suboptimal: bool },
    OutOfDate,
    Failed,
}

/// What submitting, presenting and flushing the frame gave.
#[derive(Clone, Copy, Debug, PartialEq, Eq, Structural)]
pub enum FlushOutcome {
    Flushed,
    OutOfDate,
    Failed,
}

/// How a frame ended.
#[derive(Clone, Copy, Debug, PartialEq, Eq, Structural)]
pub enum FrameOutcome {
    /// Submitted and presented.
    Presented,
    /// Submitted; presenting reported the swapchain out of date.
    PresentOutOfDate,
    /// Submitted; the flush failed, the frame is lost but the loop goes on.
    FlushFailed,
    /// Dropped: the swapchain could not be rebuilt at this size yet.
    RecreateSkipped,
    /// Dropped: the swapchain was out of date when an image was asked for.
    AcquireOutOfDate,
    /// Fatal: the swapchain could not be rebuilt.
    RecreateFailed,
    /// Fatal: no image could be acquired.
    AcquireFailed,
}

impl FrameOutcome {
    /// Whether the loop cannot go on after this frame.
    pub open spec fn is_fatal_spec(self) -> bool {
        self is RecreateFailed || self is AcquireFailed
    }

    pub fn is_fatal(&self) -> (r: bool)
        ensures
            r == self.is_fatal_spec(),
    {
        match self {
            FrameOutcome::RecreateFailed | FrameOutcome::AcquireFailed => true,
            _ => false,
        }
    }
}

/// The next thing the caller does for the current frame.
#[derive(Clone, Copy, Debug, PartialEq, Eq, Structural)]
pub enum FrameStep {
    /// Rebuild the swapchain and its framebuffers at this size.
    Recreate { extent: Extent },
    /// Acquire the next swapchain image.
    Acquire,
    /// Record the draws into this image's framebuffer, submit them after
    /// `wait_on`, the previous frame's future, joined with the acquire
    /// future, present the image, then signal a fence and flush.
    Submit { image_index: usize, wait_on: FrameFuture },
    /// The frame is over.
    End { outcome: FrameOutcome },
}

/// The decisions of frame presentation: when the swapchain is rebuilt, when a
/// frame is dropped, and which completion future the next frame waits on.
#[derive(Clone, Copy, Debug, PartialEq, Eq, Structural)]
pub struct FrameScheduler {
    pub swapchain: SwapchainState,
    pub framebuffers: FramebufferSet,
    /// The size of the single dynamic viewport.
    pub viewport: Extent,
    /// Set by resizes and by stale-swapchain reports, cleared by a rebuild.
    pub recreate_swapchain: bool,
    pub previous_frame_end: FrameFuture,
}

/// The id of the token that replaces the token `id`.
pub open spec fn next_future_id(id: u64) -> u64 {
    if id == u64::MAX { 0 } else { (id + 1) as u64 }
}

impl FrameScheduler {
    /// One framebuffer per swapchain image, and targets and viewport all of
    /// the swapchain's size.
    pub open spec fn wf(self) -> bool {
        &&& self.swapchain.image_count > 0
        &&& self.framebuffers.extent == self.swapchain.extent
        &&& self.framebuffers.count == self.swapchain.image_count
        &&& self.viewport == self.swapchain.extent
    }

    /// The scheduler after a frame that ends without submitting: the previous
    /// token is joined with an already complete future, so that the next
    /// frame still waits on the GPU work it covered, under a new token.
    pub open spec fn retired_spec(self) -> FrameScheduler {
        FrameScheduler {
            previous_frame_end: FrameFuture { id: next_future_id(self.previous_frame_end.id), kind: FutureKind::Joined },
            ..self
        }
    }

    pub open spec fn resized_spec(self) -> FrameScheduler {
        FrameScheduler { recreate_swapchain: true, ..self }
    }

    pub open spec fn begin_spec(self, window: Extent) -> FrameStep {
        if self.recreate_swapchain {
            FrameStep::Recreate { extent: window }
        } else {
            FrameStep::Acquire
        }
    }

    pub open spec fn recreate_spec(self, requested: Extent, outcome: RecreateOutcome) -> (FrameScheduler, FrameStep) {
        match outcome {
            RecreateOutcome::Created { image_count } => (
                FrameScheduler {
                    swapchain: SwapchainState { extent: requested, image_count },
                    framebuffers: FramebufferSet { extent: requested, count: image_count },
                    viewport: requested,
                    recreate_swapchain: false,
                    ..self
                },
                FrameStep::Acquire,
            ),
            RecreateOutcome::UnsupportedDimensions => (
                self.retired_spec(),
                FrameStep::End { outcome: FrameOutcome::RecreateSkipped },
            ),
            RecreateOutcome::Failed => (self.retired_spec(), FrameStep::End { outcome: FrameOutcome::RecreateFailed }),
        }
    }

    pub open spec fn acquire_spec(self, outcome: AcquireOutcome) -> (FrameScheduler, FrameStep) {
        match outcome {
            AcquireOutcome::Acquired { image_index, suboptimal } => {
                let s = FrameScheduler { recreate_swapchain: self.recreate_swapchain || suboptimal, ..self };
                if image_index < self.framebuffers.count {
                    (s, FrameStep::Submit { image_index, wait_on: self.previous_frame_end })
                } else {
                    (s.retired_spec(), FrameStep::End { outcome: FrameOutcome::AcquireFailed })
                }
            },
            AcquireOutcome::OutOfDate => (
                FrameScheduler { recreate_swapchain: true, ..self }.retired_spec(),
                FrameStep::End { outcome: FrameOutcome::AcquireOutOfDate },
            ),
            AcquireOutcome::Failed => (self.retired_spec(), FrameStep::End { outcome: FrameOutcome::AcquireFailed }),
        }
    }

    pub open spec fn flush_spec(self, outcome: FlushOutcome) -> (FrameScheduler, FrameOutcome) {
        let id = next_future_id(self.previous_frame_end.id);
        match outcome {
            FlushOutcome::Flushed => (
                FrameScheduler { previous_frame_end: FrameFuture { id, kind: FutureKind::Fence }, ..self },
                FrameOutcome::Presented,
            ),
            FlushOutcome::OutOfDate => (
                FrameScheduler {
                    recreate_swapchain: true,
                    previous_frame_end: FrameFuture { id, kind: FutureKind::Immediate },
                    ..self
                },
                FrameOutcome::PresentOutOfDate,
            ),
            FlushOutcome::Failed => (
                FrameScheduler { previous_frame_end: FrameFuture { id, kind: FutureKind::Immediate }, ..self },
                FrameOutcome::FlushFailed,
            ),
        }
    }

    /// A scheduler for a freshly built swapchain of `image_count` images of
    /// size `extent`, whose first frame waits on an already complete future.
    pub fn new(extent: Extent, image_count: usize) -> (r: FrameScheduler)
        requires
            image_count > 0,
        ensures
            r.wf(),
            r.swapchain == (SwapchainState { extent, image_count }),
            !r.recreate_swapchain,
            r.previous_frame_end == (FrameFuture { id: 0, kind: FutureKind::Immediate }),
    {
        FrameScheduler {
            swapchain: SwapchainState { extent, image_count },
            framebuffers: FramebufferSet { extent, count: image_count },
            viewport: extent,
            recreate_swapchain: false,
            previous_frame_end: FrameFuture { id: 0, kind: FutureKind::Immediate },
        }
    }

    fn next_id(&self) -> (r: u64)
        ensures
            r == next_future_id(self.previous_frame_end.id),
    {
        if self.previous_frame_end.id == u64::MAX {
            0
        } else {
            self.previous_frame_end.id + 1
        }
    }

    /// Ends a frame that submits nothing: the previous token is joined with
    /// an already complete future under a new id.
    fn retire(&mut self)
        ensures
            *final(self) == old(self).retired_spec(),
    {
        self.previous_frame_end = FrameFuture { id: self.next_id(), kind: FutureKind::Joined };
    }

    /// The window was resized: the swapchain is rebuilt at the next frame.
    pub fn notify_resized(&mut self)
        ensures
            *final(self) == old(self).resized_spec(),
    {
        self.recreate_swapchain = true;
    }

    /// Starts a frame for a window of size `window`: rebuild first if a
    /// rebuild is pending, else acquire.
    pub fn begin_frame(&self, window: Extent) -> (r: FrameStep)
        ensures
            r == self.begin_spec(window),
    {
        if self.recreate_swapchain {
            FrameStep::Recreate { extent: window }
        } else {
            FrameStep::Acquire
        }
    }

    /// Takes in the result of rebuilding the swapchain at `requested`. On
    /// success the framebuffers and viewport follow the new size and the
    /// pending rebuild is cleared; an unsupported size drops the frame and
    /// keeps the old swapchain and the pending rebuild; a frame that ends
    /// here leaves a new, joined token behind. A swapchain is a
    /// ring of at least one image.
    pub fn recreate_finished(&mut self, requested: Extent, outcome: RecreateOutcome) -> (r: FrameStep)
        requires
            outcome matches RecreateOutcome::Created { image_count } ==> image_count > 0,
        ensures
            (*final(self), r) == old(self).recreate_spec(requested, outcome),
    {
        match outcome {
            RecreateOutcome::Created { image_count } => {
                self.swapchain = SwapchainState { extent: requested, image_count };
                self.framebuffers = FramebufferSet { extent: requested, count: image_count };
                self.viewport = requested;
                self.recreate_swapchain = false;
                FrameStep::Acquire
            },
            RecreateOutcome::UnsupportedDimensions => {
                self.retire();
                FrameStep::End { outcome: FrameOutcome::RecreateSkipped }
            },
            RecreateOutcome::Failed => {
                self.retire();
                FrameStep::End { outcome: FrameOutcome::RecreateFailed }
            },
        }
    }

    /// Takes in the result of acquiring an image. Out of date drops the frame
    /// and asks for a rebuild; suboptimal draws the frame and asks for a
    /// rebuild; an index with no framebuffer is fatal. A frame that ends here
    /// leaves a new, joined token behind; one that submits waits on the
    /// current token.
    pub fn acquire_finished(&mut self, outcome: AcquireOutcome) -> (r: FrameStep)
        ensures
            (*final(self), r) == old(self).acquire_spec(outcome),
    {
        match outcome {
            AcquireOutcome::Acquired { image_index, suboptimal } => {
                if suboptimal {
                    self.recreate_swapchain = true;
                }
                if image_index < self.framebuffers.count {
                    FrameStep::Submit { image_index, wait_on: self.previous_frame_end }
                } else {
                    self.retire();
                    FrameStep::End { outcome: FrameOutcome::AcquireFailed }
                }
            },
            AcquireOutcome::OutOfDate => {
                self.recreate_swapchain = true;
                self.retire();
                FrameStep::End { outcome: FrameOutcome::AcquireOutOfDate }
            },
            AcquireOutcome::Failed => {
                self.retire();
                FrameStep::End { outcome: FrameOutcome::AcquireFailed }
            },
        }
    }

    /// Takes in the result of the flush that ends a submitted frame. The
    /// frame's fence becomes the future the next frame waits on; where the
    /// flush failed, an already complete future stands in for it, and out
    /// of date also asks for a rebuild.
    pub fn flush_finished(&mut self, outcome: FlushOutcome) -> (r: FrameOutcome)
        ensures
            (*final(self), r) == old(self).flush_spec(outcome),
    {
        let id = self.next_id();
        match outcome {
            FlushOutcome::Flushed => {
                self.previous_frame_end = FrameFuture { id, kind: FutureKind::Fence };
                FrameOutcome::Presented
            },
            FlushOutcome::OutOfDate => {
                self.recreate_swapchain = true;
                self.previous_frame_end = FrameFuture { id, kind: FutureKind::Immediate };
                FrameOutcome::PresentOutOfDate
            },
            FlushOutcome::Failed => {
                self.previous_frame_end = FrameFuture { id, kind: FutureKind::Immediate };
                FrameOutcome::FlushFailed
            },
        }
    }
}

} // verus!
