use vstd::prelude::*;

verus! {

/// The time between two animation frames, in milliseconds.
pub const ANIMATION_FRAME_INTERVAL: u64 = 33;

/// How long the event loop waits for input, in milliseconds: without limit
/// while nothing animates, one frame interval while something does.
pub fn input_poll_timeout(animating: bool) -> (r: Option<u64>)
    ensures
        r == if animating {
            Some(ANIMATION_FRAME_INTERVAL)
        } else {
            None::<u64>
        },
{
    if animating {
        Some(ANIMATION_FRAME_INTERVAL)
    } else {
        None
    }
}

} // verus!
