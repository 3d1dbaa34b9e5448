//! A cursor that hands out the steps of one frame, one at a time.
use vstd::prelude::*;
use crate::step::{frame_steps, passes_from, FrameStep};

verus! {

/// Where a pass stands: the kind of step that comes next.
#[derive(Clone, Copy, Debug)]
enum Stage {
    Clear,
    Update,
    Arm,
    Bob,
    Redraw,
    Done,
}

/// One pass over a frame's work. The host creates a pass when the window
/// asks for a frame, and performs each step that `next_step` hands out until
/// there is none left.
#[derive(Clone, Copy, Debug)]
pub struct FramePass {
    count: usize,
    index: usize,
    stage: Stage,
}

impl FramePass {
    #[verifier::type_invariant]
    spec fn inv(self) -> bool {
        match self.stage {
            Stage::Update | Stage::Arm | Stage::Bob => self.index < self.count,
            _ => true,
        }
    }

    /// The steps that the pass has not handed out yet, next one first.
    pub closed spec fn remaining(self) -> Seq<FrameStep> {
        let tail = passes_from((self.index + 1) as usize, self.count)
            + seq![FrameStep::RequestRedraw];
        match self.stage {
            Stage::Clear => frame_steps(self.count),
            Stage::Update => passes_from(self.index, self.count)
                + seq![FrameStep::RequestRedraw],
            Stage::Arm => seq![FrameStep::DrawArm(self.index), FrameStep::DrawBob(self.index)]
                + tail,
            Stage::Bob => seq![FrameStep::DrawBob(self.index)] + tail,
            Stage::Redraw => seq![FrameStep::RequestRedraw],
            Stage::Done => Seq::empty(),
        }
    }

    /// Starts the pass for a frame of a driver that owns `count` pendulums.
    pub fn new(count: usize) -> (pass: FramePass)
        ensures
            pass.remaining() == frame_steps(count),
    {
        FramePass { count, index: 0, stage: Stage::Clear }
    }

    /// Hands out the next step of the frame, or `None` once the frame is
    /// complete. A complete pass stays complete.
    pub fn next_step(&mut self) -> (step: Option<FrameStep>)
        ensures
            old(self).remaining().len() == 0 ==> step.is_none() && final(self).remaining()
                == old(self).remaining(),
            old(self).remaining().len() > 0 ==> step == Some(old(self).remaining()[0])
                && final(self).remaining() == old(self).remaining().skip(1),
    {
        proof {
            use_type_invariant(&*self);
        }
        let count: usize = self.count;
        let index: usize = self.index;
        match self.stage {
            Stage::Clear => {
                let stage = if count > 0 {
                    Stage::Update
                } else {
                    Stage::Redraw
                };
                *self = FramePass { count, index: 0, stage };
                proof {
                    assert(final(self).remaining() =~= old(self).remaining().skip(1));
                }
                Some(FrameStep::Clear)
            },
            Stage::Update => {
                *self = FramePass { count, index, stage: Stage::Arm };
                proof {
                    assert(final(self).remaining() =~= old(self).remaining().skip(1));
                }
                Some(FrameStep::Update(index))
            },
            Stage::Arm => {
                *self = FramePass { count, index, stage: Stage::Bob };
                proof {
                    assert(final(self).remaining() =~= old(self).remaining().skip(1));
                }
                Some(FrameStep::DrawArm(index))
            },
            Stage::Bob => {
                if index + 1 < count {
                    *self = FramePass { count, index: index + 1, stage: Stage::Update };
                } else {
                    *self = FramePass { count, index, stage: Stage::Redraw };
                }
                proof {
                    assert(final(self).remaining() =~= old(self).remaining().skip(1));
                }
                Some(FrameStep::DrawBob(index))
            },
            Stage::Redraw => {
                *self = FramePass { count, index, stage: Stage::Done };
                proof {
                    assert(final(self).remaining() =~= old(self).remaining().skip(1));
                }
                Some(FrameStep::RequestRedraw)
            },
            Stage::Done => None,
        }
    }
}

/// The whole frame of a driver that owns `count` pendulums, as a list. The
/// list has three steps for each pendulum and two more, and that number has
/// to fit the machine's word.
pub fn frame_plan(count: usize) -> (plan: Vec<FrameStep>)
    requires
        3 * count + 2 <= usize::MAX,
    ensures
        plan@ == frame_steps(count),
{
    let mut plan: Vec<FrameStep> = Vec::new();
    let mut pass = FramePass::new(count);
    loop
        invariant
            plan@ + pass.remaining() == frame_steps(count),
        ensures
            plan@ == frame_steps(count),
        decreases pass.remaining().len(),
    {
        let ghost before = pass.remaining();
        match pass.next_step() {
            Some(step) => {
                plan.push(step);
                proof {
                    assert(plan@ + pass.remaining() =~= plan@.drop_last() + before);
                }
            },
            None => {
                proof {
                    assert(plan@ + pass.remaining() =~= plan@);
                }
                break ;
            },
        }
    }
    plan
}

} // verus!
