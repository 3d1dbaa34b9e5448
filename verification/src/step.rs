//! The steps of a frame and the order in which a frame performs them.
use vstd::prelude::*;

verus! {

/// One unit of work that the host performs during a frame. Pendulums are
/// named by their position in the driver's fixed collection.
#[derive(Clone, Copy, Debug, PartialEq, Eq, Structural)]
pub enum FrameStep {
    /// Fill the canvas with the background colour.
    Clear,
    /// Advance the given pendulum by one tick.
    Update(usize),
    /// Draw the arm of the given pendulum: a line from its pivot to its bob.
    DrawArm(usize),
    /// Draw the bob of the given pendulum: a filled disc at its position.
    DrawBob(usize),
    /// Ask the window to schedule the next frame.
    RequestRedraw,
}

/// The work done for one pendulum: it is moved first, and then drawn from
/// its new position, arm before bob.
pub open spec fn pendulum_steps(index: usize) -> Seq<FrameStep> {
    seq![FrameStep::Update(index), FrameStep::DrawArm(index), FrameStep::DrawBob(index)]
}

/// The work done for the pendulums `first`, `first + 1`, ... `count - 1`,
/// in that order.
pub open spec fn passes_from(first: usize, count: usize) -> Seq<FrameStep>
    decreases count - first,
{
    if first >= count {
        Seq::empty()
    } else {
        pendulum_steps(first) + passes_from((first + 1) as usize, count)
    }
}

/// Everything a frame does for a driver that owns `count` pendulums.
pub open spec fn frame_steps(count: usize) -> Seq<FrameStep> {
    seq![FrameStep::Clear] + passes_from(0, count) + seq![FrameStep::RequestRedraw]
}

/// The step that stands at place `k` of a frame over `count` pendulums,
/// for `0 <= k <= 3 * count + 1`: the clearing, then three steps for each
/// pendulum, then the request for the next frame.
pub open spec fn step_at(count: usize, k: int) -> FrameStep {
    let index = ((k - 1) / 3) as usize;
    if k <= 0 {
        FrameStep::Clear
    } else if k > 3 * count {
        FrameStep::RequestRedraw
    } else if (k - 1) % 3 == 0 {
        FrameStep::Update(index)
    } else if (k - 1) % 3 == 1 {
        FrameStep::DrawArm(index)
    } else {
        FrameStep::DrawBob(index)
    }
}

} // verus!
