//! The frame loop's state and transitions: one structure holding the
//! swapchain-dependent resources, the rebuild flag and the single
//! in-flight completion token, with one method per decision the loop
//! takes. The driver performs the actual acquire, submit and present
//! calls and feeds their outcomes in as plain values.

use vstd::prelude::*;
use crate::event::{AcquireOutcome, AcquireStep, RebuildOutcome, RebuildStep, SubmitOutcome,
    WindowEventKind};
use crate::model::{LoopEvent, step};
use crate::target::{PixelViewport, RenderTarget, SwapchainImageInfo, targets_of, viewport_of,
    window_size_dependent_setup};

verus! {

/// The completion signal of the most recently submitted frame. Exactly
/// one is live at any time: it is a single field of `Renderer`, replaced
/// each iteration. `pending` holds from submission until the frame has
/// been waited on (or the token has been replaced by a fresh, already
/// complete one after a flush failure).
#[derive(Clone, Copy, PartialEq, Eq, Structural, Debug)]
pub struct FrameToken {
    pub serial: u64,
    pub pending: bool,
}

/// The frame loop's state: the current swapchain images, the render
/// targets and viewport derived from them, the rebuild flag, and the
/// in-flight completion token.
pub struct Renderer {
    pub render_pass: u64,
    pub images: Vec<SwapchainImageInfo>,
    pub targets: Vec<RenderTarget>,
    pub viewport: PixelViewport,
    pub recreate_swapchain: bool,
    pub in_flight: FrameToken,
}

impl Renderer {
    /// Well-formedness: the swapchain is never empty, there is one render
    /// target per swapchain image in image order, and the viewport equals
    /// the first image's pixel dimensions.
    pub open spec fn inv(self) -> bool {
        &&& self.images@.len() > 0
        &&& self.targets@ == targets_of(self.render_pass, self.images@)
        &&& self.viewport == viewport_of(self.images@)
    }

    /// The swapchain-dependent part of the state is unchanged.
    pub open spec fn same_swapchain(pre: Renderer, post: Renderer) -> bool {
        &&& post.render_pass == pre.render_pass
        &&& post.images@ == pre.images@
        &&& post.targets@ == pre.targets@
        &&& post.viewport == pre.viewport
    }

    /// Set up the loop around the initial swapchain images: derive the
    /// targets and viewport, schedule no rebuild, and start from a fresh,
    /// already complete token.
    pub fn new(render_pass: u64, images: Vec<SwapchainImageInfo>) -> (r: Renderer)
        requires
            images@.len() > 0,
        ensures
            r.inv(),
            r.render_pass == render_pass,
            r.images@ == images@,
            !r.recreate_swapchain,
            r.in_flight == (FrameToken { serial: 0u64, pending: false }),
    {
        let mut viewport = PixelViewport { width: 0, height: 0 };
        let targets = window_size_dependent_setup(&images, render_pass, &mut viewport);
        Renderer {
            render_pass,
            images,
            targets,
            viewport,
            recreate_swapchain: false,
            in_flight: FrameToken { serial: 0, pending: false },
        }
    }

    /// React to one window event: a close request ends the loop, a resize
    /// schedules a swapchain rebuild, and every other kind is ignored.
    pub fn handle_window_event(&mut self, event: WindowEventKind) -> (exit: bool)
        ensures
            exit == (event == WindowEventKind::CloseRequested),
            final(self).recreate_swapchain == (old(self).recreate_swapchain
                || event == WindowEventKind::Resized),
            Self::same_swapchain(*old(self), *final(self)),
            final(self).in_flight == old(self).in_flight,
            final(self).model() == step(old(self).model(), LoopEvent::Window(event)),
    {
        let result = match event {
            WindowEventKind::CloseRequested => true,
            WindowEventKind::Resized => {
                self.recreate_swapchain = true;
                false
            },
            WindowEventKind::Other => false,
        };
        proof {
            assert(self.model() =~= step(old(self).model(), LoopEvent::Window(event)));
        }
        result
    }

    /// Whether the next iteration must rebuild the swapchain before
    /// drawing.
    pub fn needs_rebuild(&self) -> (r: bool)
        ensures
            r == self.recreate_swapchain,
    {
        self.recreate_swapchain
    }

    /// Apply the outcome of recreating the swapchain against the window's
    /// current size. A successful rebuild replaces the images, rebuilds
    /// one target per image, resizes the viewport and clears the rebuild
    /// flag; unsupported (zero-area) dimensions skip the frame and leave
    /// the rebuild scheduled, never failing the loop.
    pub fn handle_rebuild_outcome(&mut self, outcome: RebuildOutcome) -> (directive: RebuildStep)
        requires
            old(self).inv(),
            old(self).recreate_swapchain,
            outcome matches RebuildOutcome::Rebuilt(images) ==> images@.len() > 0,
        ensures
            final(self).inv(),
            final(self).render_pass == old(self).render_pass,
            final(self).in_flight == old(self).in_flight,
            final(self).model() == step(old(self).model(), outcome.model()),
            match outcome {
                RebuildOutcome::Rebuilt(images) => {
                    &&& directive == RebuildStep::Ready
                    &&& final(self).images@ == images@
                    &&& final(self).targets@ == targets_of(old(self).render_pass, images@)
                    &&& final(self).viewport == viewport_of(images@)
                    &&& !final(self).recreate_swapchain
                },
                RebuildOutcome::UnsupportedDimensions => {
                    &&& directive == RebuildStep::SkipFrame
                    &&& Self::same_swapchain(*old(self), *final(self))
                    &&& final(self).recreate_swapchain
                },
            },
    {
        match outcome {
            RebuildOutcome::Rebuilt(images) => {
                let targets = window_size_dependent_setup(
                    &images,
                    self.render_pass,
                    &mut self.viewport,
                );
                self.images = images;
                self.targets = targets;
                self.recreate_swapchain = false;
                proof {
                    assert(self.model() =~= step(old(self).model(), outcome.model()));
                }
                RebuildStep::Ready
            },
            RebuildOutcome::UnsupportedDimensions => {
                proof {
                    assert(self.model() =~= step(old(self).model(), outcome.model()));
                }
                RebuildStep::SkipFrame
            },
        }
    }

    /// React to the outcome of acquiring the next presentable image. An
    /// out-of-date swapchain schedules a rebuild and skips the frame,
    /// never ending the loop; a suboptimal acquisition still draws but
    /// schedules a rebuild for the next iteration.
    pub fn handle_acquire(&mut self, outcome: AcquireOutcome) -> (directive: AcquireStep)
        requires
            old(self).inv(),
            outcome matches AcquireOutcome::Acquired { image_index, .. }
                ==> (image_index as int) < old(self).targets@.len(),
        ensures
            final(self).inv(),
            Self::same_swapchain(*old(self), *final(self)),
            final(self).in_flight == old(self).in_flight,
            final(self).model() == step(old(self).model(), LoopEvent::Acquire(outcome)),
            match outcome {
                AcquireOutcome::Acquired { image_index, suboptimal } => {
                    &&& directive == (AcquireStep::Draw { image_index })
                    &&& final(self).recreate_swapchain
                        == (old(self).recreate_swapchain || suboptimal)
                },
                AcquireOutcome::OutOfDate => {
                    &&& directive == AcquireStep::SkipFrame
                    &&& final(self).recreate_swapchain
                },
            },
    {
        let result = match outcome {
            AcquireOutcome::Acquired { image_index, suboptimal } => {
                if suboptimal {
                    self.recreate_swapchain = true;
                }
                AcquireStep::Draw { image_index }
            },
            AcquireOutcome::OutOfDate => {
                self.recreate_swapchain = true;
                AcquireStep::SkipFrame
            },
        };
        proof {
            assert(self.model() =~= step(old(self).model(), LoopEvent::Acquire(outcome)));
        }
        result
    }

    /// The render target the given acquired image index draws into.
    pub fn target_at(&self, image_index: usize) -> (t: RenderTarget)
        requires
            (image_index as int) < self.targets@.len(),
        ensures
            t == self.targets@[image_index as int],
    {
        self.targets[image_index]
    }

    /// Record that a new frame has been submitted: replace the token with
    /// the next serial, now pending. A new submission never occurs while
    /// the previous token has not been waited on.
    pub fn record_submission(&mut self)
        requires
            !old(self).in_flight.pending,
            old(self).in_flight.serial < u64::MAX,
        ensures
            Self::same_swapchain(*old(self), *final(self)),
            final(self).recreate_swapchain == old(self).recreate_swapchain,
            final(self).in_flight.pending,
            final(self).in_flight.serial == old(self).in_flight.serial + 1,
            final(self).model() == step(old(self).model(), LoopEvent::SubmissionRecorded),
    {
        self.in_flight = FrameToken { serial: self.in_flight.serial + 1, pending: true };
        proof {
            assert(self.model() =~= step(old(self).model(), LoopEvent::SubmissionRecorded));
        }
    }

    /// Resolve the submitted frame at the end of the iteration. Clean
    /// completion means the token has been waited on; a stale swapchain
    /// schedules a rebuild; any other flush failure only falls back to a
    /// fresh, already complete token so the loop never deadlocks. In every
    /// case the token is no longer pending afterwards.
    pub fn complete_submission(&mut self, outcome: SubmitOutcome)
        requires
            old(self).in_flight.pending,
        ensures
            Self::same_swapchain(*old(self), *final(self)),
            !final(self).in_flight.pending,
            final(self).in_flight.serial == old(self).in_flight.serial,
            final(self).recreate_swapchain == (old(self).recreate_swapchain
                || outcome == SubmitOutcome::OutOfDate),
            final(self).model() == step(old(self).model(), LoopEvent::SubmitResolved(outcome)),
    {
        match outcome {
            SubmitOutcome::Completed => {
                self.in_flight = FrameToken { serial: self.in_flight.serial, pending: false };
            },
            SubmitOutcome::OutOfDate => {
                self.recreate_swapchain = true;
                self.in_flight = FrameToken { serial: self.in_flight.serial, pending: false };
            },
            SubmitOutcome::OtherFailure => {
                self.in_flight = FrameToken { serial: self.in_flight.serial, pending: false };
            },
        }
        proof {
            assert(self.model() =~= step(old(self).model(), LoopEvent::SubmitResolved(outcome)));
        }
    }

    /// Whether the most recently submitted frame is still pending.
    pub fn frame_pending(&self) -> (r: bool)
        ensures
            r == self.in_flight.pending,
    {
        self.in_flight.pending
    }

    /// The serial number of the current completion token.
    pub fn token_serial(&self) -> (r: u64)
        ensures
            r == self.in_flight.serial,
    {
        self.in_flight.serial
    }

    /// The number of render targets currently held.
    pub fn target_count(&self) -> (r: usize)
        ensures
            r == self.targets@.len(),
    {
        self.targets.len()
    }

    /// The current shared viewport.
    pub fn current_viewport(&self) -> (v: PixelViewport)
        ensures
            v == self.viewport,
    {
        self.viewport
    }
}

} // verus!
