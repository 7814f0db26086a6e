//! The frame gate: work is done on a tick only when more than a fixed
//! interval has passed since the last tick that did work. Time comes from
//! the caller, in milliseconds of a monotonic clock.
use vstd::prelude::*;

verus! {

/// Remembers when the last frame was drawn.
pub struct FrameGate {
    last_ms: u64,
    interval_ms: u64,
}

impl FrameGate {
    /// The time of the last frame.
    pub closed spec fn last(&self) -> nat {
        self.last_ms as nat
    }

    /// The least time between frames, exclusive.
    pub closed spec fn interval(&self) -> nat {
        self.interval_ms as nat
    }

    /// A gate whose clock starts at `now_ms`.
    pub fn new(now_ms: u64, interval_ms: u64) -> (g: FrameGate)
        ensures
            g.last() == now_ms,
            g.interval() == interval_ms,
    {
        FrameGate { last_ms: now_ms, interval_ms }
    }

    /// Whether a frame is due at `now_ms`: more than the interval has passed
    /// since the last frame (a clock reading earlier than the last frame
    /// counts as no time passed). A due frame becomes the last frame.
    pub fn poll(&mut self, now_ms: u64) -> (due: bool)
        ensures
            due == (now_ms > old(self).last() + old(self).interval()),
            final(self).interval() == old(self).interval(),
            final(self).last() == if due {
                now_ms as nat
            } else {
                old(self).last()
            },
    {
        let elapsed: u64 = now_ms.saturating_sub(self.last_ms);
        if elapsed > self.interval_ms {
            self.last_ms = now_ms;
            true
        } else {
            false
        }
    }
}

} // verus!
