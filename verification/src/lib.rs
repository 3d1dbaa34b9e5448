//! Frame sequencing for a pendulum animation.
//!
//! Every display frame of the animation is the same fixed run of work: wipe
//! the canvas, then for each pendulum in turn advance it by one tick and draw
//! its arm and its bob, and finally ask the window for another frame. This
//! crate decides that run of work and proves its shape; a host that owns the
//! window and the pendulums carries the steps out.
pub mod laws;
pub mod pass;
pub mod step;

pub use pass::{frame_plan, FramePass};
pub use step::FrameStep;
