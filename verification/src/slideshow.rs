//! Timing decisions of the main loop: when the slideshow moves on, and how long
//! the loop sleeps after a frame. The clock itself is read by the caller.
use vstd::prelude::*;
use crate::params::{spec_interval_secs, SlideshowInterval};

verus! {

/// Nanoseconds in a second.
pub open spec fn nanos_per_sec() -> nat {
    1_000_000_000
}

/// The frame time the main loop aims at, in milliseconds.
pub const FRAME_TIME_TARGET_MS: u64 = 33;

/// The slideshow state that the timing decisions read: whether the slideshow
/// runs and how long each scene is shown, in seconds.
#[derive(Debug, Clone, Copy, PartialEq, Eq, Structural)]
pub struct SlideShowData {
    pub interval_secs: u64,
    pub active: bool,
}

impl Default for SlideShowData {
    fn default() -> (r: Self)
        ensures
            r.interval_secs == 0,
            !r.active,
    {
        SlideShowData { interval_secs: 0, active: false }
    }
}

impl SlideShowData {
    /// Takes over the slideshow settings of the active config.
    pub fn apply_config(&mut self, slideshow: bool, interval: SlideshowInterval)
        ensures
            final(self).active == slideshow,
            final(self).interval_secs == spec_interval_secs(interval),
    {
        self.active = slideshow;
        self.interval_secs = interval.secs();
    }

    /// Turns the slideshow on or off.
    pub fn set_active(&mut self, on: bool)
        ensures
            final(self).active == on,
            final(self).interval_secs == old(self).interval_secs,
    {
        self.active = on;
    }

    /// Whether the slideshow moves on to the next scene, given the time spent
    /// on the current one: it does when it runs and strictly more than the
    /// interval has passed. The caller then restarts its timer and switches.
    pub fn manage(&self, elapsed_nanos: u128) -> (due: bool)
        ensures
            due == (self.active && elapsed_nanos > self.interval_secs * nanos_per_sec()),
    {
        let interval_nanos: u128 = (self.interval_secs as u128) * 1_000_000_000u128;
        self.active && elapsed_nanos > interval_nanos
    }
}

/// How long the main loop sleeps after a frame that took `frame_nanos`:
/// what is left of the frame time target, or nothing.
pub fn frame_sleep_nanos(frame_nanos: u128) -> (r: u128)
    ensures
        r == if frame_nanos >= FRAME_TIME_TARGET_MS * 1_000_000 {
            0
        } else {
            FRAME_TIME_TARGET_MS * 1_000_000 - frame_nanos
        },
{
    let target: u128 = (FRAME_TIME_TARGET_MS as u128) * 1_000_000u128;
    if frame_nanos >= target {
        0
    } else {
        target - frame_nanos
    }
}

} // verus!
