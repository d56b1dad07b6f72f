use vstd::prelude::*;

use chrono::Timelike;

use crate::theme::Theme;
use crate::time::TimeOfDay;

verus! {

/// A location's daily light boundaries: local sunset and sunrise times.
#[derive(Clone, Copy, Debug, PartialEq, Eq, Structural)]
pub struct LocationInfo {
    pub sunset: TimeOfDay,
    pub sunrise: TimeOfDay,
}

/// Relies on chrono: `Local::now().time()` returns the current wall-clock
/// `NaiveTime`, whose `Timelike` accessors give an hour from 0 to 23 and a
/// minute and second from 0 to 59.
#[verifier::external_body]
pub(crate) fn local_time_now() -> (t: TimeOfDay)
    ensures
        t.wf(),
{
    let now = chrono::Local::now().time();
    TimeOfDay {
        hour: now.hour() as u8,
        minute: now.minute() as u8,
        second: now.second() as u8,
    }
}

impl LocationInfo {
    /// Both boundaries are valid times of day.
    pub open spec fn wf(self) -> bool {
        self.sunset.wf() && self.sunrise.wf()
    }

    /// The degenerate value substituted when the sun neither rises nor sets:
    /// sunset 23:59:59, sunrise 00:00:00, which always classifies as Day.
    pub open spec fn spec_sentinel() -> LocationInfo {
        LocationInfo {
            sunset: TimeOfDay { hour: 23, minute: 59, second: 59 },
            sunrise: TimeOfDay { hour: 0, minute: 0, second: 0 },
        }
    }

    pub fn sentinel() -> (r: LocationInfo)
        ensures
            r == LocationInfo::spec_sentinel(),
            r.wf(),
    {
        LocationInfo {
            sunset: TimeOfDay::new(23, 59, 59),
            sunrise: TimeOfDay::new(0, 0, 0),
        }
    }

    pub fn new(sunset: TimeOfDay, sunrise: TimeOfDay) -> (r: LocationInfo)
        requires
            sunset.wf(),
            sunrise.wf(),
        ensures
            r == (LocationInfo { sunset, sunrise }),
            r.wf(),
    {
        LocationInfo { sunset, sunrise }
    }

    /// Night exactly when `now` lies after sunset or before sunrise,
    /// comparing times of day by their seconds since midnight.
    pub open spec fn spec_classify(self, now: TimeOfDay) -> Theme {
        if now.spec_seconds() > self.sunset.spec_seconds()
            || now.spec_seconds() < self.sunrise.spec_seconds() {
            Theme::Night
        } else {
            Theme::Day
        }
    }

    /// Classify a moment as Day or Night.
    pub fn classify(&self, now: TimeOfDay) -> (t: Theme)
        requires
            self.wf(),
            now.wf(),
        ensures
            t == self.spec_classify(now),
    {
        let now_s = now.seconds();
        if now_s > self.sunset.seconds() || now_s < self.sunrise.seconds() {
            Theme::Night
        } else {
            Theme::Day
        }
    }

    /// Classify the present moment, read from the local clock.
    pub fn get_theme(&self) -> (t: Theme)
        requires
            self.wf(),
        ensures
            exists|now: TimeOfDay| now.wf() && t == self.spec_classify(now),
    {
        let now = local_time_now();
        self.classify(now)
    }

    /// Build from a solar computation: a Some carries the (sunrise, sunset)
    /// pair for the day; a None (polar day or polar night) yields the
    /// sentinel value.
    pub fn from_solar(solar: Option<(TimeOfDay, TimeOfDay)>) -> (r: LocationInfo)
        requires
            (solar matches Some(p) ==> p.0.wf() && p.1.wf()),
        ensures
            (match solar {
                Some(p) => r == (LocationInfo { sunset: p.1, sunrise: p.0 }),
                None => r == LocationInfo::spec_sentinel(),
            }),
            r.wf(),
    {
        match solar {
            Some((rise, set)) => LocationInfo { sunset: set, sunrise: rise },
            None => LocationInfo::sentinel(),
        }
    }
}

/// Law: when sunrise comes strictly before sunset, a moment classifies as
/// Day exactly when it lies between sunrise and sunset, both boundaries
/// included; every other moment classifies as Night.
pub proof fn lemma_classify_day_window(info: LocationInfo, now: TimeOfDay)
    requires
        info.wf(),
        now.wf(),
        info.sunrise.spec_seconds() < info.sunset.spec_seconds(),
    ensures
        info.spec_classify(now) == Theme::Day <==> (info.sunrise.spec_seconds()
            <= now.spec_seconds() <= info.sunset.spec_seconds()),
        info.spec_classify(now) == Theme::Night <==> !(info.sunrise.spec_seconds()
            <= now.spec_seconds() <= info.sunset.spec_seconds()),
{
}

/// Law: the sentinel value classifies every valid moment as Day, the exact
/// midnight 00:00:00 included.
pub proof fn lemma_sentinel_always_day(now: TimeOfDay)
    requires
        now.wf(),
    ensures
        LocationInfo::spec_sentinel().spec_classify(now) == Theme::Day,
{
}

} // verus!
