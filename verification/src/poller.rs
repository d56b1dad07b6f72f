use vstd::prelude::*;

use crate::location::LocationInfo;
use crate::theme::Theme;
use crate::time::TimeOfDay;

verus! {

/// The transition poller's state: the location being watched and the theme
/// most recently applied. A tick re-classifies the present moment and
/// reports a theme exactly when it differs from the applied one.
pub struct Poller {
    pub location: LocationInfo,
    pub prev: Theme,
}

impl Poller {
    pub open spec fn wf(self) -> bool {
        self.location.wf()
    }

    /// Enter the running state at moment `now`. The poller remembers the
    /// classification of `now` as the theme in force.
    pub fn start(location: LocationInfo, now: TimeOfDay) -> (p: Poller)
        requires
            location.wf(),
            now.wf(),
        ensures
            p.location == location,
            p.prev == location.spec_classify(now),
            p.wf(),
    {
        let prev = location.classify(now);
        Poller { location, prev }
    }

    /// One tick at moment `now`: reports Some theme exactly when the
    /// classification changed since the last applied theme, and remembers
    /// the new classification either way.
    pub fn tick(&mut self, now: TimeOfDay) -> (r: Option<Theme>)
        requires
            old(self).wf(),
            now.wf(),
        ensures
            (*final(self), r) == spec_step(*old(self), now),
            final(self).location == old(self).location,
            final(self).prev == old(self).location.spec_classify(now),
            r == (if old(self).location.spec_classify(now) != old(self).prev {
                Some(old(self).location.spec_classify(now))
            } else {
                None::<Theme>
            }),
    {
        let theme = self.location.classify(now);
        if theme != self.prev {
            self.prev = theme;
            Some(theme)
        } else {
            None
        }
    }
}

/// Decide whether the freshly resolved location must be applied at startup
/// even though a cached theme may already have been applied: yes unless the
/// cache held exactly the fresh value.
pub fn should_reapply(cached: Option<LocationInfo>, fresh: LocationInfo) -> (r: bool)
    ensures
        r <==> cached != Some(fresh),
{
    match cached {
        Some(c) => c != fresh,
        None => true,
    }
}

/// One tick's effect on the poller's state, and what it emits: the
/// classification of `now` replaces the remembered theme, and is emitted
/// exactly when it differs from it.
pub open spec fn spec_step(p: Poller, now: TimeOfDay) -> (Poller, Option<Theme>) {
    let th = p.location.spec_classify(now);
    (
        Poller { location: p.location, prev: th },
        if th != p.prev {
            Some(th)
        } else {
            None
        },
    )
}

/// The classification of each moment of `nows` under location `loc`.
pub open spec fn themes_of(loc: LocationInfo, nows: Seq<TimeOfDay>) -> Seq<Theme> {
    nows.map(|i: int, t: TimeOfDay| loc.spec_classify(t))
}

/// What a run of ticks from state `p` over the moments `nows` emits: one
/// entry per tick, Some where the applier would be invoked.
pub open spec fn spec_run(p: Poller, nows: Seq<TimeOfDay>) -> Seq<Option<Theme>>
    decreases nows.len(),
{
    if nows.len() == 0 {
        Seq::empty()
    } else {
        let step = spec_step(p, nows[0]);
        seq![step.1] + spec_run(step.0, nows.drop_first())
    }
}

/// A run emits one entry per tick.
pub proof fn lemma_run_len(p: Poller, nows: Seq<TimeOfDay>)
    ensures
        spec_run(p, nows).len() == nows.len(),
    decreases nows.len(),
{
    if nows.len() > 0 {
        let th = p.location.spec_classify(nows[0]);
        lemma_run_len(Poller { location: p.location, prev: th }, nows.drop_first());
    }
}

/// Law: across any sequence of ticks, a theme is emitted exactly at the
/// ticks whose classification differs from the one in force before them —
/// the first tick comparing against the starting state's applied theme —
/// and the emitted theme is that tick's classification. A tick whose
/// classification is unchanged emits nothing, so each maximal run of ticks
/// sharing a classification leads to exactly one emission, at its first
/// tick.
pub proof fn lemma_run_emissions(p: Poller, nows: Seq<TimeOfDay>, i: int)
    requires
        0 <= i < nows.len(),
    ensures
        spec_run(p, nows).len() == nows.len(),
        spec_run(p, nows)[i] == (if themes_of(p.location, nows)[i] != (if i == 0 {
            p.prev
        } else {
            themes_of(p.location, nows)[i - 1]
        }) {
            Some(themes_of(p.location, nows)[i])
        } else {
            None::<Theme>
        }),
    decreases i,
{
    lemma_run_len(p, nows);
    let th = p.location.spec_classify(nows[0]);
    let p1 = Poller { location: p.location, prev: th };
    let rest = nows.drop_first();
    lemma_run_len(p1, rest);
    if i > 0 {
        lemma_run_emissions(p1, rest, i - 1);
        assert(themes_of(p1.location, rest)[i - 1] == themes_of(p.location, nows)[i]);
        if i - 1 > 0 {
            assert(themes_of(p1.location, rest)[i - 2] == themes_of(p.location, nows)[i - 1]);
        }
        assert(spec_run(p, nows)[i] == spec_run(p1, rest)[i - 1]);
    }
}

} // verus!
