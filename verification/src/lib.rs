//! A verified model of a single-window redraw loop over a presentation
//! swapchain: rebuilding size-dependent render targets on resize, deriving
//! the shared viewport from the first swapchain image, and tracking the
//! single in-flight frame-completion token.
//!
//! The library holds the decisions of the loop; the surrounding program
//! performs the actual device, window and presentation calls and feeds
//! their outcomes back in as plain values.

pub mod event;
pub mod model;
pub mod renderer;
pub mod target;
