use vstd::prelude::*;

verus! {

/// A wall-clock time of day with second resolution.
#[derive(Clone, Copy, Debug, PartialEq, Eq, Structural)]
pub struct TimeOfDay {
    pub hour: u8,
    pub minute: u8,
    pub second: u8,
}

impl TimeOfDay {
    /// A valid time of day: 00:00:00 through 23:59:59.
    pub open spec fn wf(self) -> bool {
        self.hour < 24 && self.minute < 60 && self.second < 60
    }

    /// The time as a count of seconds since midnight.
    pub open spec fn spec_seconds(self) -> int {
        self.hour * 3600 + self.minute * 60 + self.second
    }

    pub fn new(hour: u8, minute: u8, second: u8) -> (t: Self)
        requires
            hour < 24,
            minute < 60,
            second < 60,
        ensures
            t == (TimeOfDay { hour, minute, second }),
            t.wf(),
    {
        TimeOfDay { hour, minute, second }
    }

    /// Seconds since midnight, for comparing two times of day.
    pub fn seconds(&self) -> (s: u32)
        requires
            self.wf(),
        ensures
            s == self.spec_seconds(),
    {
        self.hour as u32 * 3600 + self.minute as u32 * 60 + self.second as u32
    }
}

} // verus!
