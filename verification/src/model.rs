//! A mathematical model of the frame loop: an abstract state, one total
//! transition function over the loop's events, and the laws that hold of
//! every reachable state. Each `Renderer` method promises that it moves
//! the concrete state exactly as `step` moves the abstract one, so the
//! laws proved here hold of any run of the loop.

use vstd::prelude::*;
use crate::event::{AcquireOutcome, RebuildOutcome, SubmitOutcome, WindowEventKind};
use crate::renderer::Renderer;
use crate::target::{PixelViewport, RenderTarget, SwapchainImageInfo, targets_of, viewport_of};

verus! {

/// The abstract state of the frame loop.
#[verifier::ext_equal]
pub struct LoopModel {
    pub render_pass: u64,
    pub images: Seq<SwapchainImageInfo>,
    pub targets: Seq<RenderTarget>,
    pub viewport: PixelViewport,
    pub recreate_swapchain: bool,
    pub in_flight_pending: bool,
    pub in_flight_serial: nat,
}

/// One event of the loop, as the model sees it: a window event, the
/// outcome of a swapchain rebuild, the outcome of an image acquisition,
/// the recording of a new submission, or the resolution of the submitted
/// frame.
pub enum LoopEvent {
    Window(WindowEventKind),
    RebuildDone(Seq<SwapchainImageInfo>),
    RebuildUnsupported,
    Acquire(AcquireOutcome),
    SubmissionRecorded,
    SubmitResolved(SubmitOutcome),
}

impl Renderer {
    /// The abstract state this concrete state stands for.
    pub open spec fn model(self) -> LoopModel {
        LoopModel {
            render_pass: self.render_pass,
            images: self.images@,
            targets: self.targets@,
            viewport: self.viewport,
            recreate_swapchain: self.recreate_swapchain,
            in_flight_pending: self.in_flight.pending,
            in_flight_serial: self.in_flight.serial as nat,
        }
    }
}

impl RebuildOutcome {
    /// The model event this outcome stands for.
    pub open spec fn model(self) -> LoopEvent {
        match self {
            RebuildOutcome::Rebuilt(images) => LoopEvent::RebuildDone(images@),
            RebuildOutcome::UnsupportedDimensions => LoopEvent::RebuildUnsupported,
        }
    }
}

/// Well-formedness of an abstract state: the swapchain is never empty,
/// there is exactly one render target per swapchain image in image order,
/// and the viewport equals the first image's pixel dimensions.
pub open spec fn model_inv(m: LoopModel) -> bool {
    &&& m.images.len() > 0
    &&& m.targets == targets_of(m.render_pass, m.images)
    &&& m.viewport == viewport_of(m.images)
}

/// The loop's transition function. It is total: an event that the loop's
/// protocol cannot produce in the given state (a rebuild outcome while no
/// rebuild is scheduled, an empty image list, a submission while the
/// previous token is still pending, a resolution while none is) leaves
/// the state unchanged.
pub open spec fn step(m: LoopModel, e: LoopEvent) -> LoopModel {
    match e {
        LoopEvent::Window(kind) => {
            if kind == WindowEventKind::Resized {
                LoopModel { recreate_swapchain: true, ..m }
            } else {
                m
            }
        },
        LoopEvent::RebuildDone(images) => {
            if m.recreate_swapchain && images.len() > 0 {
                LoopModel {
                    images,
                    targets: targets_of(m.render_pass, images),
                    viewport: viewport_of(images),
                    recreate_swapchain: false,
                    ..m
                }
            } else {
                m
            }
        },
        LoopEvent::RebuildUnsupported => m,
        LoopEvent::Acquire(outcome) => match outcome {
            AcquireOutcome::Acquired { image_index: _, suboptimal } => {
                LoopModel { recreate_swapchain: m.recreate_swapchain || suboptimal, ..m }
            },
            AcquireOutcome::OutOfDate => LoopModel { recreate_swapchain: true, ..m },
        },
        LoopEvent::SubmissionRecorded => {
            if !m.in_flight_pending {
                LoopModel {
                    in_flight_pending: true,
                    in_flight_serial: m.in_flight_serial + 1,
                    ..m
                }
            } else {
                m
            }
        },
        LoopEvent::SubmitResolved(outcome) => {
            if m.in_flight_pending {
                LoopModel {
                    in_flight_pending: false,
                    recreate_swapchain: m.recreate_swapchain
                        || outcome == SubmitOutcome::OutOfDate,
                    ..m
                }
            } else {
                m
            }
        },
    }
}

/// The state after a whole sequence of events, first event first.
pub open spec fn run(m: LoopModel, events: Seq<LoopEvent>) -> LoopModel
    decreases events.len(),
{
    if events.len() == 0 {
        m
    } else {
        run(step(m, events[0]), events.drop_first())
    }
}

/// Every single transition preserves well-formedness: in particular,
/// right after a rebuild the render target list length equals the new
/// swapchain image count and the viewport equals the first new image's
/// pixel dimensions.
pub proof fn lemma_step_preserves_inv(m: LoopModel, e: LoopEvent)
    requires
        model_inv(m),
    ensures
        model_inv(step(m, e)),
{
}

/// For any sequence of loop events — resizes and rebuilds included — the
/// render target list length always equals the current swapchain image
/// count, and the viewport always equals the first swapchain image's
/// pixel dimensions.
pub proof fn lemma_run_preserves_inv(m: LoopModel, events: Seq<LoopEvent>)
    requires
        model_inv(m),
    ensures
        model_inv(run(m, events)),
        run(m, events).targets.len() == run(m, events).images.len(),
        run(m, events).viewport == viewport_of(run(m, events).images),
    decreases events.len(),
{
    if events.len() > 0 {
        lemma_step_preserves_inv(m, events[0]);
        lemma_run_preserves_inv(step(m, events[0]), events.drop_first());
    }
}

/// A stale ("out of date") swapchain reported by acquisition or by the
/// flush after presentation never ends the loop: the state stays well
/// formed and a rebuild is scheduled for the next iteration.
pub proof fn lemma_out_of_date_schedules_rebuild(m: LoopModel)
    requires
        model_inv(m),
    ensures
        model_inv(step(m, LoopEvent::Acquire(AcquireOutcome::OutOfDate))),
        step(m, LoopEvent::Acquire(AcquireOutcome::OutOfDate)).recreate_swapchain,
        model_inv(step(m, LoopEvent::SubmitResolved(SubmitOutcome::OutOfDate))),
        m.in_flight_pending
            ==> step(m, LoopEvent::SubmitResolved(SubmitOutcome::OutOfDate)).recreate_swapchain,
{
}

/// A new submission is recorded only when the previous token has been
/// waited on; while it is still pending, the recording event moves
/// nothing. When it is recorded, it replaces the single token with the
/// next serial, now pending.
pub proof fn lemma_no_double_submission(m: LoopModel)
    ensures
        m.in_flight_pending ==> step(m, LoopEvent::SubmissionRecorded) == m,
        !m.in_flight_pending ==> step(m, LoopEvent::SubmissionRecorded).in_flight_pending,
        !m.in_flight_pending ==> step(m, LoopEvent::SubmissionRecorded).in_flight_serial
            == m.in_flight_serial + 1,
{
}

/// Unsupported (zero-area) dimensions during a rebuild change nothing:
/// the frame is skipped, the state stays well formed, and the rebuild
/// stays scheduled.
pub proof fn lemma_unsupported_dimensions_skip(m: LoopModel)
    requires
        model_inv(m),
    ensures
        step(m, LoopEvent::RebuildUnsupported) == m,
        model_inv(step(m, LoopEvent::RebuildUnsupported)),
{
}

} // verus!
