use vstd::prelude::*;

verus! {

/// Frames in the animation.
pub const FRAME_COUNT: u32 = 50;

/// Pause after each frame, in milliseconds.
pub const FRAME_MILLIS: u64 = 60;

/// Where the animation stands.
#[derive(Clone, Copy, PartialEq, Eq, Debug)]
pub enum Phase {
    /// Frame `n` is due: draw the scene, advance it, pause.
    Looping(u32),
    /// Every frame is done: clear the screen and put the cursor home.
    Cleanup,
    /// Nothing is left to do.
    Exit,
}

pub open spec fn next_spec(p: Phase) -> Phase {
    match p {
        Phase::Looping(n) => if n + 1 < FRAME_COUNT {
            Phase::Looping((n + 1) as u32)
        } else {
            Phase::Cleanup
        },
        Phase::Cleanup => Phase::Exit,
        Phase::Exit => Phase::Exit,
    }
}

/// The phase after `steps` steps from the start.
pub open spec fn phase_after(steps: nat) -> Phase
    decreases steps,
{
    if steps == 0 {
        Phase::Looping(0)
    } else {
        next_spec(phase_after((steps - 1) as nat))
    }
}

/// The phase the animation starts in: the first frame is due.
pub fn start_phase() -> (p: Phase)
    ensures
        p == phase_after(0),
{
    Phase::Looping(0)
}

/// The phase that follows `p` once its work is done.
pub fn next_phase(p: Phase) -> (q: Phase)
    ensures
        q == next_spec(p),
{
    match p {
        Phase::Looping(n) => if n < FRAME_COUNT - 1 {
            Phase::Looping(n + 1)
        } else {
            Phase::Cleanup
        },
        Phase::Cleanup => Phase::Exit,
        Phase::Exit => Phase::Exit,
    }
}

/// The animation draws exactly `FRAME_COUNT` frames, numbered in order,
/// then cleans up once and stops.
pub proof fn lemma_frame_schedule(steps: nat)
    ensures
        steps < FRAME_COUNT ==> phase_after(steps) == Phase::Looping(steps as u32),
        steps == FRAME_COUNT ==> phase_after(steps) == Phase::Cleanup,
        steps > FRAME_COUNT ==> phase_after(steps) == Phase::Exit,
    decreases steps,
{
    if steps > 0 {
        lemma_frame_schedule((steps - 1) as nat);
    }
}

} // verus!
