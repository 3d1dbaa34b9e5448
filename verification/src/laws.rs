//! What holds of every frame, whatever the number of pendulums.
use vstd::prelude::*;
use crate::step::{frame_steps, passes_from, pendulum_steps, step_at, FrameStep};

verus! {

/// The work for the pendulums from `first` on is three steps each, and they
/// are the steps that stand behind place `3 * first` of the whole frame.
proof fn lemma_passes_shape(first: usize, count: usize)
    requires
        first <= count,
    ensures
        passes_from(first, count).len() == 3 * (count - first),
        forall|k: int|
            0 <= k < 3 * (count - first) ==> #[trigger] passes_from(first, count)[k] == step_at(
                count,
                3 * first + 1 + k,
            ),
    decreases count - first,
{
    if first < count {
        let next = (first + 1) as usize;
        lemma_passes_shape(next, count);
        assert forall|k: int| 0 <= k < 3 * (count - first) implies #[trigger] passes_from(
            first,
            count,
        )[k] == step_at(count, 3 * first + 1 + k) by {
            if k >= 3 {
                assert(passes_from(first, count)[k] == passes_from(next, count)[k - 3]);
            } else {
                assert(passes_from(first, count)[k] == pendulum_steps(first)[k]);
            }
        }
    }
}

/// A frame over `count` pendulums has `3 * count + 2` steps, and the step at
/// each place is the one that `step_at` gives.
pub proof fn law_frame_layout(count: usize)
    ensures
        frame_steps(count).len() == 3 * count + 2,
        forall|k: int|
            0 <= k < 3 * count + 2 ==> #[trigger] frame_steps(count)[k] == step_at(count, k),
{
    lemma_passes_shape(0, count);
    assert forall|k: int| 0 <= k < 3 * count + 2 implies #[trigger] frame_steps(count)[k]
        == step_at(count, k) by {
        if 1 <= k <= 3 * count {
            assert(frame_steps(count)[k] == passes_from(0, count)[k - 1]);
        }
    }
}

/// Each pendulum of the driver is moved once and then drawn, arm before
/// bob, in three neighbouring steps; the pendulums come in the order of
/// their indices, none is skipped, and its steps name no other pendulum.
pub proof fn law_update_then_draw(count: usize, index: usize)
    requires
        index < count,
    ensures
        frame_steps(count)[3 * index + 1] == FrameStep::Update(index),
        frame_steps(count)[3 * index + 2] == FrameStep::DrawArm(index),
        frame_steps(count)[3 * index + 3] == FrameStep::DrawBob(index),
{
    law_frame_layout(count);
}

/// A frame begins by clearing the canvas, and clears it only then.
pub proof fn law_clear_comes_first(count: usize)
    ensures
        frame_steps(count)[0] == FrameStep::Clear,
        forall|k: int|
            0 < k < frame_steps(count).len() ==> #[trigger] frame_steps(count)[k]
                != FrameStep::Clear,
{
    law_frame_layout(count);
}

/// A frame asks for the next frame exactly once, as its last step, however
/// many pendulums there are: the animation never stops by itself.
pub proof fn law_one_redraw_request(count: usize)
    ensures
        frame_steps(count).last() == FrameStep::RequestRedraw,
        forall|k: int|
            0 <= k < frame_steps(count).len() - 1 ==> #[trigger] frame_steps(count)[k]
                != FrameStep::RequestRedraw,
{
    law_frame_layout(count);
}

/// No step occurs twice in a frame: in particular no pendulum is moved
/// more than one tick per frame.
pub proof fn law_each_step_once(count: usize)
    ensures
        frame_steps(count).no_duplicates(),
{
    law_frame_layout(count);
    assert forall|a: int, b: int|
        0 <= a < frame_steps(count).len() && 0 <= b < frame_steps(count).len() && a
            != b implies frame_steps(count)[a] != frame_steps(count)[b] by {
        assert(frame_steps(count)[a] == step_at(count, a));
        assert(frame_steps(count)[b] == step_at(count, b));
    }
}

/// The steps of a frame are exactly the clearing, the redraw request, and
/// the three steps of each pendulum that the driver owns; no frame touches
/// a pendulum outside the collection.
pub proof fn law_frame_contents(count: usize, step: FrameStep)
    ensures
        frame_steps(count).contains(step) <==> match step {
            FrameStep::Clear | FrameStep::RequestRedraw => true,
            FrameStep::Update(i) | FrameStep::DrawArm(i) | FrameStep::DrawBob(i) => i < count,
        },
{
    law_frame_layout(count);
    let steps = frame_steps(count);
    if steps.contains(step) {
        let k = choose|k: int| 0 <= k < steps.len() && steps[k] == step;
        assert(steps[k] == step_at(count, k));
    }
    match step {
        FrameStep::Clear => {
            assert(steps[0] == step);
        },
        FrameStep::RequestRedraw => {
            assert(steps[3 * count + 1] == step);
        },
        FrameStep::Update(i) => {
            if i < count {
                assert(steps[3 * i + 1] == step);
            }
        },
        FrameStep::DrawArm(i) => {
            if i < count {
                assert(steps[3 * i + 2] == step);
            }
        },
        FrameStep::DrawBob(i) => {
            if i < count {
                assert(steps[3 * i + 3] == step);
            }
        },
    }
}

} // verus!
