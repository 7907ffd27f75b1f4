use vstd::prelude::*;

verus! {

/// The frame shown after `frame` in an animation of `frame_count` frames:
/// the next one, or the first one after the last.
pub open spec fn next_frame(frame: int, frame_count: int) -> int {
    if frame < frame_count - 1 {
        frame + 1
    } else {
        0
    }
}

/// Advances a sprite's frame index by one, wrapping around to the first
/// frame after the last one.
pub fn next_frame_index(frame_idx: usize, frame_count: usize) -> (next: usize)
    requires
        frame_count > 0,
    ensures
        next == next_frame(frame_idx as int, frame_count as int),
        next < frame_count,
{
    if frame_idx < frame_count - 1 {
        frame_idx + 1
    } else {
        0
    }
}

} // verus!

verus! {

/// The frame reached from `frame` after `steps` advances.
pub open spec fn frame_after(frame: int, frame_count: int, steps: nat) -> int
    decreases steps,
{
    if steps == 0 {
        frame
    } else {
        next_frame(frame_after(frame, frame_count, (steps - 1) as nat), frame_count)
    }
}

/// What one animation tick decides: the frame to show, and whether the
/// clock that measures the frame interval starts over.
#[derive(Clone, Copy, Debug, PartialEq, Eq)]
pub struct AnimationStep {
    pub frame_idx: usize,
    pub restart_clock: bool,
}

/// One tick of a sprite animation. When a full frame interval has elapsed
/// since the clock last started, the sprite moves on to its next frame and
/// the clock starts over; otherwise nothing changes.
pub fn animation_step(frame_idx: usize, frame_count: usize, interval_elapsed: bool) -> (step:
    AnimationStep)
    requires
        interval_elapsed ==> frame_count > 0,
    ensures
        step.restart_clock == interval_elapsed,
        interval_elapsed ==> step.frame_idx == next_frame(frame_idx as int, frame_count as int),
        !interval_elapsed ==> step.frame_idx == frame_idx,
{
    if interval_elapsed {
        AnimationStep { frame_idx: next_frame_index(frame_idx, frame_count), restart_clock: true }
    } else {
        AnimationStep { frame_idx, restart_clock: false }
    }
}

proof fn lemma_frame_after_mod(frame: int, frame_count: int, steps: nat)
    requires
        0 <= frame < frame_count,
    ensures
        frame_after(frame, frame_count, steps) == (frame + steps) % frame_count,
    decreases steps,
{
    if steps == 0 {
        assert(frame % frame_count == frame) by (nonlinear_arith)
            requires 0 <= frame < frame_count;
    } else {
        lemma_frame_after_mod(frame, frame_count, (steps - 1) as nat);
        let prev = (frame + steps - 1) % frame_count;
        assert(0 <= prev < frame_count) by (nonlinear_arith)
            requires frame_count > 0, prev == (frame + steps - 1) % frame_count;
        if prev < frame_count - 1 {
            assert((frame + steps) % frame_count == prev + 1) by (nonlinear_arith)
                requires
                    frame_count > 0,
                    prev == (frame + steps - 1) % frame_count,
                    prev < frame_count - 1,
            ;
        } else {
            assert((frame + steps) % frame_count == 0) by (nonlinear_arith)
                requires
                    frame_count > 0,
                    prev == (frame + steps - 1) % frame_count,
                    prev == frame_count - 1,
            ;
        }
    }
}

/// The animation plays its frames in order and loops: starting on frame
/// `frame` of `frame_count`, after `steps` advances it shows frame
/// `(frame + steps) % frame_count`; in particular it is back on `frame`
/// after exactly `frame_count` advances.
pub proof fn lemma_animation_cycles(frame: int, frame_count: int, steps: nat)
    requires
        0 <= frame < frame_count,
    ensures
        frame_after(frame, frame_count, steps) == (frame + steps) % frame_count,
        frame_after(frame, frame_count, frame_count as nat) == frame,
{
    lemma_frame_after_mod(frame, frame_count, steps);
    lemma_frame_after_mod(frame, frame_count, frame_count as nat);
    assert((frame + frame_count) % frame_count == frame) by (nonlinear_arith)
        requires 0 <= frame < frame_count;
}

} // verus!
