//! The plain-value events the frame loop reacts to, and the per-step
//! directives it hands back to its driver.
//!
//! Fatal outcomes never reach the library: any device, surface, pipeline
//! or recording failure aborts the program at the call site, as does any
//! swapchain construction error other than unsupported dimensions. Only
//! the recoverable outcomes are represented here.

use vstd::prelude::*;
use crate::target::SwapchainImageInfo;

verus! {

/// The window lifecycle events the loop reacts to; every other event kind
/// is `Other` and is ignored.
#[derive(Clone, Copy, PartialEq, Eq, Structural, Debug)]
pub enum WindowEventKind {
    CloseRequested,
    Resized,
    Other,
}

/// The outcome of recreating the swapchain against the window's current
/// size: either the new ordered list of presentable images, or a report
/// that the requested dimensions (a transient zero-size window, say) are
/// unsupported.
#[derive(Clone, Debug)]
pub enum RebuildOutcome {
    Rebuilt(Vec<SwapchainImageInfo>),
    UnsupportedDimensions,
}

/// The outcome of acquiring the next presentable image: the image index
/// and whether the presentation engine reported the swapchain as
/// suboptimal, or a report that the swapchain is out of date.
#[derive(Clone, Copy, PartialEq, Eq, Structural, Debug)]
pub enum AcquireOutcome {
    Acquired { image_index: usize, suboptimal: bool },
    OutOfDate,
}

/// The outcome of flushing the submitted frame and waiting on it: clean
/// completion, a stale swapchain, or any other flush failure (logged by
/// the driver and treated as if the frame's work never completed).
#[derive(Clone, Copy, PartialEq, Eq, Structural, Debug)]
pub enum SubmitOutcome {
    Completed,
    OutOfDate,
    OtherFailure,
}

/// What to do after applying a rebuild outcome: go on with the frame, or
/// skip it (the rebuild stays scheduled for the next iteration).
#[derive(Clone, Copy, PartialEq, Eq, Structural, Debug)]
pub enum RebuildStep {
    Ready,
    SkipFrame,
}

/// What to do after applying an acquire outcome: record and submit a draw
/// into the given render target, or skip this frame.
#[derive(Clone, Copy, PartialEq, Eq, Structural, Debug)]
pub enum AcquireStep {
    Draw { image_index: usize },
    SkipFrame,
}

} // verus!
