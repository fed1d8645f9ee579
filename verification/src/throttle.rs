use vstd::prelude::*;

verus! {

/// Nanoseconds in a millisecond.
pub const NANOS_PER_MILLI: u64 = 1_000_000;

/// What the throttle asks of the frame that just ended.
#[derive(Clone, Copy, Debug, PartialEq, Eq, Structural)]
pub enum ThrottleStep {
    /// The frame was late or on time: go on at once.
    Proceed,
    /// The frame was early: wait until this instant.
    WaitUntil(u64),
}

/// Keeps frames at least a minimum length apart. Instants are nanoseconds from a fixed
/// origin that the caller chooses.
pub struct FramerateThrottle {
    minimum_frame_length: u64,
    next_frame: u64,
}

impl FramerateThrottle {
    pub closed spec fn minimum_frame_length(self) -> u64 {
        self.minimum_frame_length
    }

    /// The earliest instant at which the next frame may start.
    pub closed spec fn next_frame(self) -> u64 {
        self.next_frame
    }

    /// A throttle whose first frame may start at `now`.
    pub fn new(minimum_frame_length: u64, now: u64) -> (r: Self)
        ensures
            r.minimum_frame_length() == minimum_frame_length,
            r.next_frame() == now,
    {
        Self { minimum_frame_length, next_frame: now }
    }

    /// Ends a frame at `now`. A frame that ends at or after the planned instant schedules
    /// the next one a minimum length after `now`; an early one waits for the planned
    /// instant and schedules the next a minimum length after that.
    pub fn throttle(&mut self, now: u64) -> (r: ThrottleStep)
        requires
            now >= old(self).next_frame() ==> now + old(self).minimum_frame_length() <= u64::MAX,
            now < old(self).next_frame() ==> old(self).next_frame()
                + old(self).minimum_frame_length() <= u64::MAX,
        ensures
            final(self).minimum_frame_length() == old(self).minimum_frame_length(),
            now >= old(self).next_frame() ==> r == ThrottleStep::Proceed && final(self).next_frame()
                == now + old(self).minimum_frame_length(),
            now < old(self).next_frame() ==> r == ThrottleStep::WaitUntil(old(self).next_frame())
                && final(self).next_frame() == old(self).next_frame()
                + old(self).minimum_frame_length(),
            final(self).next_frame() >= now + old(self).minimum_frame_length(),
    {
        if now >= self.next_frame {
            self.next_frame = now + self.minimum_frame_length;
            ThrottleStep::Proceed
        } else {
            let target = self.next_frame;
            self.next_frame = self.next_frame + self.minimum_frame_length;
            ThrottleStep::WaitUntil(target)
        }
    }
}

/// While waiting for `target`, whether to sleep a millisecond rather than spin: only while
/// more than three milliseconds are left.
pub fn wait_should_sleep(target: u64, now: u64) -> (r: bool)
    ensures
        r == (now < target && target - now > 3 * NANOS_PER_MILLI),
{
    now < target && target - now > 3 * NANOS_PER_MILLI
}

} // verus!
