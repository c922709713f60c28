use vstd::prelude::*;

verus! {

/// A closed interval of time, in seconds since the Unix epoch.
#[derive(Debug, Clone, Copy, PartialEq, Eq, Structural)]
pub struct Window {
    pub open_at: i64,
    pub close_at: i64,
}

/// Whether a phase is open now, with its boundaries.
#[derive(Debug, Clone, Copy, PartialEq, Eq, Structural)]
pub struct PhaseStatus {
    pub opened: bool,
    pub open_at: i64,
    pub close_at: i64,
}

impl Window {
    /// `now` lies within the window, both ends included.
    pub open spec fn contains(self, now: i64) -> bool {
        self.open_at <= now <= self.close_at
    }

    /// The window has closed: `now` lies after its end.
    pub open spec fn has_ended(self, now: i64) -> bool {
        now > self.close_at
    }

    pub fn new(open_at: i64, close_at: i64) -> (r: Window)
        ensures
            r.open_at == open_at,
            r.close_at == close_at,
    {
        Window { open_at, close_at }
    }

    /// True iff `open_at <= now <= close_at`.
    pub fn is_open(&self, now: i64) -> (r: bool)
        ensures
            r == self.contains(now),
    {
        self.open_at <= now && now <= self.close_at
    }

    /// True iff `now > close_at`.
    pub fn is_ended(&self, now: i64) -> (r: bool)
        ensures
            r == self.has_ended(now),
    {
        now > self.close_at
    }
}

/// The state of a phase at time `now`.
pub fn phase_status(now: i64, window: Window) -> (r: PhaseStatus)
    ensures
        r.opened == window.contains(now),
        r.open_at == window.open_at,
        r.close_at == window.close_at,
{
    PhaseStatus { opened: window.is_open(now), open_at: window.open_at, close_at: window.close_at }
}

/// Whether results may be shown: only once voting has ended.
pub fn result_status(now: i64, voting: Window) -> (r: PhaseStatus)
    ensures
        r.opened == voting.has_ended(now),
        r.open_at == voting.close_at,
        r.close_at == voting.close_at,
{
    PhaseStatus { opened: voting.is_ended(now), open_at: voting.close_at, close_at: voting.close_at }
}

} // verus!
