use vstd::prelude::*;

verus! {

/// Countdown that decides when the reference frame is replaced.
///
/// The countdown starts at 0, so the very first frame becomes the reference.
/// On every frame the countdown is reset to `interval` when it stands at 0
/// (which replaces the reference), and is then decremented.
pub struct RefreshSchedule {
    interval: u64,
    countdown: u64,
}

impl RefreshSchedule {
    /// Frames between two replacements of the reference frame.
    pub closed spec fn interval_spec(&self) -> nat {
        self.interval as nat
    }

    /// The countdown as it stands between two frames.
    pub closed spec fn countdown_spec(&self) -> nat {
        self.countdown as nat
    }

    pub open spec fn wf(&self) -> bool {
        &&& self.interval_spec() > 0
        &&& self.countdown_spec() < self.interval_spec()
    }

    /// Whether the next frame replaces the reference frame.
    pub open spec fn refresh_due(&self) -> bool {
        self.countdown_spec() == 0
    }

    /// The countdown after one more frame.
    pub open spec fn next_countdown(&self) -> nat {
        if self.countdown_spec() == 0 {
            (self.interval_spec() - 1) as nat
        } else {
            (self.countdown_spec() - 1) as nat
        }
    }

    pub fn new(interval: u64) -> (r: Self)
        requires
            interval > 0,
        ensures
            r.wf(),
            r.interval_spec() == interval,
            r.countdown_spec() == 0,
    {
        RefreshSchedule { interval, countdown: 0 }
    }

    pub fn interval(&self) -> (r: u64)
        ensures
            r == self.interval_spec(),
    {
        self.interval
    }

    pub fn countdown(&self) -> (r: u64)
        ensures
            r == self.countdown_spec(),
    {
        self.countdown
    }

    /// Accounts for one more frame; returns whether that frame replaces the
    /// reference frame.
    pub fn advance(&mut self) -> (refresh: bool)
        requires
            old(self).wf(),
        ensures
            final(self).wf(),
            refresh == old(self).refresh_due(),
            final(self).interval_spec() == old(self).interval_spec(),
            final(self).countdown_spec() == old(self).next_countdown(),
    {
        let refresh = self.countdown == 0;
        if refresh {
            self.countdown = self.interval;
        }
        self.countdown = self.countdown - 1;
        refresh
    }
}

} // verus!
