use vstd::prelude::*;

verus! {

/// The time that passed from the previous frame (if there was one) to `now`, in
/// nanoseconds; zero for the first frame, and zero rather than negative should `now`
/// lie before the previous frame.
pub open spec fn elapsed(last_frame_time: Option<u64>, now: u64) -> nat {
    match last_frame_time {
        Some(last) => if now >= last {
            (now - last) as nat
        } else {
            0
        },
        None => 0,
    }
}

/// Remembers when the last frame was updated, as nanoseconds on a monotonic clock, to
/// give each update the time that passed since the one before.
pub struct FrameTimer {
    last_frame_time: Option<u64>,
}

impl View for FrameTimer {
    type V = Option<u64>;

    /// The time of the last update or resume, if any.
    closed spec fn view(&self) -> Option<u64> {
        self.last_frame_time
    }
}

impl FrameTimer {
    /// A timer that has seen no frame yet.
    pub fn new() -> (timer: FrameTimer)
        ensures
            timer@ is None,
    {
        FrameTimer { last_frame_time: None }
    }

    /// The application resumed at `now`: the next update measures from here.
    pub fn on_resume(&mut self, now: u64)
        ensures
            final(self)@ == Some(now),
    {
        self.last_frame_time = Some(now);
    }

    /// A frame is updated at `now`: returns the nanoseconds since the previous update
    /// (zero for the first) and remembers `now`.
    pub fn update(&mut self, now: u64) -> (delta: u64)
        ensures
            delta == elapsed(old(self)@, now),
            final(self)@ == Some(now),
    {
        let delta: u64 = match self.last_frame_time {
            Some(last) => now.saturating_sub(last),
            None => 0,
        };
        self.last_frame_time = Some(now);
        delta
    }
}

/// The times of consecutive updates add up: what two updates measure together is the
/// time from the frame before the first to the second.
pub proof fn elapsed_times_add_up(t0: u64, t1: u64, t2: u64)
    requires
        t0 <= t1 <= t2,
    ensures
        elapsed(Some(t0), t1) + elapsed(Some(t1), t2) == elapsed(Some(t0), t2),
{
}

/// An update measures exactly the nanoseconds that passed since the previous one, over
/// the whole `u64` range of times; and nothing when the clock reads earlier than before.
pub proof fn update_measures_time_since_previous(last: u64, now: u64)
    ensures
        last <= now ==> elapsed(Some(last), now) == now - last,
        now < last ==> elapsed(Some(last), now) == 0,
        elapsed(Some(last), now) <= now,
{
}

/// The first update after the timer was created measures nothing.
pub proof fn first_update_measures_nothing(now: u64)
    ensures
        elapsed(None, now) == 0,
{
}

} // verus!
