use vstd::prelude::*;

verus! {

/// Milliseconds from `from` to `to`, zero when `to` comes first.
pub open spec fn elapsed(from: u64, to: u64) -> nat {
    if to >= from {
        (to - from) as nat
    } else {
        0
    }
}

/// The flash phase flips when at least `threshold` milliseconds have passed
/// since the last flip.
#[derive(Clone, Copy, Debug, PartialEq, Eq, Structural)]
pub struct Flasher {
    pub phase: bool,
    pub last_flip_ms: u64,
}

/// The flasher after a tick at `now` with the given threshold.
pub open spec fn tick_spec(f: Flasher, now: u64, threshold: nat) -> Flasher {
    if elapsed(f.last_flip_ms, now) >= threshold {
        Flasher { phase: !f.phase, last_flip_ms: now }
    } else {
        f
    }
}

impl Flasher {
    /// A flasher in the dark phase whose window starts at `now`.
    pub open spec fn new_spec(now: u64) -> Flasher {
        Flasher { phase: false, last_flip_ms: now }
    }

    /// A flasher in the dark phase whose window starts at `now_ms`.
    pub fn new(now_ms: u64) -> (r: Flasher)
        ensures
            r == Flasher::new_spec(now_ms),
    {
        Flasher { phase: false, last_flip_ms: now_ms }
    }

    /// Flip the phase if `threshold_ms` has elapsed by `now_ms`, restarting
    /// the window there. Returns whether it flipped.
    pub fn tick(&mut self, now_ms: u64, threshold_ms: u64) -> (flipped: bool)
        ensures
            *final(self) == tick_spec(*old(self), now_ms, threshold_ms as nat),
            flipped == (elapsed(old(self).last_flip_ms, now_ms) >= threshold_ms),
    {
        let since = now_ms.saturating_sub(self.last_flip_ms);
        if since >= threshold_ms {
            self.phase = !self.phase;
            self.last_flip_ms = now_ms;
            true
        } else {
            false
        }
    }
}

} // verus!
