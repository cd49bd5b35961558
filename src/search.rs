use vstd::prelude::*;

verus! {

/// Largest number of Newton steps taken before bisection takes over.
pub const NEWTON_ITERATIONS: usize = 8;

/// Largest number of bisection probes; after that the last guess is kept.
pub const BISECTION_ITERATIONS: usize = 64;

/// Bound on the number of decisions that one search makes.
pub const MAX_DECISIONS: usize = NEWTON_ITERATIONS + BISECTION_ITERATIONS + 2;

/// Where the target `x` lies with respect to the unit interval.
#[derive(Clone, Copy, Debug, PartialEq, Eq)]
pub enum TargetRange {
    /// `x < 0`.
    Below,
    /// Neither below 0 nor above 1.
    Within,
    /// `x > 1`.
    Above,
}

/// Stage of the search for the curve parameter whose `x` is the target.
#[derive(Clone, Copy, Debug, PartialEq, Eq)]
pub enum Phase {
    /// Newton's method, after `steps` steps.
    Newton { steps: usize },
    /// Bisection on `[low, high]`, after `probes` probes.
    Bisection { probes: usize },
    /// The search is over.
    Done,
}

/// What the caller measured at the current guess `t`.
#[derive(Clone, Copy, Debug, PartialEq, Eq)]
pub struct Probe {
    /// `|x(t) - target| < EPSILON`.
    pub close: bool,
    /// `|x'(t)| < 1e-6` (read during Newton's method only).
    pub flat: bool,
    /// `low < high` (read during bisection only).
    pub open: bool,
    /// `target > x(t)` (read during bisection only).
    pub short: bool,
}

/// What the caller does next with its guess `t` and its interval.
#[derive(Clone, Copy, Debug, PartialEq, Eq)]
pub enum Action {
    /// Return the current guess `t`.
    Accept,
    /// Return 0: the target lies below the unit interval.
    ReturnZero,
    /// Return 1: the target lies above the unit interval.
    ReturnOne,
    /// `t := t - (x(t) - target) / x'(t)`.
    NewtonStep,
    /// `low := 0`, `high := 1`, `t := target`.
    StartBisection,
    /// `low := t`, then `t := low + (high - low) / 2`.
    RaiseLow,
    /// `high := t`, then `t := low + (high - low) / 2`.
    LowerHigh,
}

/// Step control of the hybrid Newton / bisection search.
#[derive(Clone, Copy, Debug, PartialEq, Eq)]
pub struct Search {
    pub phase: Phase,
    pub range: TargetRange,
}

/// The state and action that follow when Newton's method is given up.
pub open spec fn leave_newton(range: TargetRange) -> (Search, Action) {
    match range {
        TargetRange::Below => (Search { phase: Phase::Done, range }, Action::ReturnZero),
        TargetRange::Above => (Search { phase: Phase::Done, range }, Action::ReturnOne),
        TargetRange::Within => (
            Search { phase: Phase::Bisection { probes: 0 }, range },
            Action::StartBisection,
        ),
    }
}

/// One decision of the search, given what was measured at the current guess.
pub open spec fn transition(s: Search, p: Probe) -> (Search, Action) {
    let done = Search { phase: Phase::Done, range: s.range };
    match s.phase {
        Phase::Newton { steps } => {
            if steps >= NEWTON_ITERATIONS {
                leave_newton(s.range)
            } else if p.close {
                (done, Action::Accept)
            } else if p.flat {
                leave_newton(s.range)
            } else {
                (Search { phase: Phase::Newton { steps: (steps + 1) as usize }, range: s.range }, Action::NewtonStep)
            }
        },
        Phase::Bisection { probes } => {
            if probes >= BISECTION_ITERATIONS || !p.open || p.close {
                (done, Action::Accept)
            } else {
                let next = Search { phase: Phase::Bisection { probes: (probes + 1) as usize }, range: s.range };
                if p.short {
                    (next, Action::RaiseLow)
                } else {
                    (next, Action::LowerHigh)
                }
            }
        },
        Phase::Done => (done, Action::Accept),
    }
}

/// The state after a run of decisions on the given probes.
pub open spec fn run(s: Search, probes: Seq<Probe>) -> Search
    decreases probes.len(),
{
    if probes.len() == 0 {
        s
    } else {
        run(transition(s, probes[0]).0, probes.drop_first())
    }
}

/// Number of decisions that may still follow in state `s`.
pub open spec fn remaining(s: Search) -> nat {
    match s.phase {
        Phase::Newton { steps } => {
            let left: nat = if steps <= NEWTON_ITERATIONS { (NEWTON_ITERATIONS - steps) as nat } else { 0 };
            (left + 1 + BISECTION_ITERATIONS + 1) as nat
        },
        Phase::Bisection { probes } => {
            if probes <= BISECTION_ITERATIONS { (BISECTION_ITERATIONS - probes + 1) as nat } else { 1 }
        },
        Phase::Done => 0,
    }
}

/// Actions after which the search is over.
pub open spec fn is_final(a: Action) -> bool {
    a == Action::Accept || a == Action::ReturnZero || a == Action::ReturnOne
}

impl Search {
    /// A search that starts with Newton's method from the guess `t = target`.
    pub fn new(range: TargetRange) -> (r: Search)
        ensures
            r == (Search { phase: Phase::Newton { steps: 0 }, range }),
    {
        Search { phase: Phase::Newton { steps: 0 }, range }
    }

    /// Whether the search is over.
    pub fn is_done(&self) -> (r: bool)
        ensures
            r == (self.phase == Phase::Done),
    {
        matches!(self.phase, Phase::Done)
    }

    /// Takes one decision on what was measured at the current guess.
    pub fn next(&mut self, p: Probe) -> (r: Action)
        ensures
            (*final(self), r) == transition(*old(self), p),
    {
        let range = self.range;
        let (s, a) = match self.phase {
            Phase::Newton { steps } => {
                if steps >= NEWTON_ITERATIONS {
                    Self::leave_newton(range)
                } else if p.close {
                    (Search { phase: Phase::Done, range }, Action::Accept)
                } else if p.flat {
                    Self::leave_newton(range)
                } else {
                    (Search { phase: Phase::Newton { steps: steps + 1 }, range }, Action::NewtonStep)
                }
            },
            Phase::Bisection { probes } => {
                if probes >= BISECTION_ITERATIONS || !p.open || p.close {
                    (Search { phase: Phase::Done, range }, Action::Accept)
                } else if p.short {
                    (Search { phase: Phase::Bisection { probes: probes + 1 }, range }, Action::RaiseLow)
                } else {
                    (Search { phase: Phase::Bisection { probes: probes + 1 }, range }, Action::LowerHigh)
                }
            },
            Phase::Done => (Search { phase: Phase::Done, range }, Action::Accept),
        };
        *self = s;
        a
    }

    fn leave_newton(range: TargetRange) -> (r: (Search, Action))
        ensures
            r == leave_newton(range),
    {
        match range {
            TargetRange::Below => (Search { phase: Phase::Done, range }, Action::ReturnZero),
            TargetRange::Above => (Search { phase: Phase::Done, range }, Action::ReturnOne),
            TargetRange::Within => (Search { phase: Phase::Bisection { probes: 0 }, range }, Action::StartBisection),
        }
    }
}

/// Each decision either ends the search or leaves fewer decisions to come,
/// and the search is over exactly when the decision was a final one.
pub proof fn lemma_decision_progress(s: Search, p: Probe)
    requires
        s.phase != Phase::Done,
    ensures
        remaining(transition(s, p).0) < remaining(s),
        is_final(transition(s, p).1) <==> transition(s, p).0.phase == Phase::Done,
{
}

/// However the measurements turn out, a search that has been given
/// `remaining(s)` probes is over.
pub proof fn lemma_run_ends(s: Search, probes: Seq<Probe>)
    requires
        probes.len() >= remaining(s),
    ensures
        run(s, probes).phase == Phase::Done,
    decreases probes.len(),
{
    if s.phase == Phase::Done {
        lemma_done_stays(s, probes);
    } else {
        lemma_decision_progress(s, probes[0]);
        lemma_run_ends(transition(s, probes[0]).0, probes.drop_first());
    }
}

proof fn lemma_done_stays(s: Search, probes: Seq<Probe>)
    requires
        s.phase == Phase::Done,
    ensures
        run(s, probes).phase == Phase::Done,
    decreases probes.len(),
{
    if probes.len() > 0 {
        lemma_done_stays(transition(s, probes[0]).0, probes.drop_first());
    }
}

/// A search started on any target makes at most `MAX_DECISIONS` decisions,
/// whatever is measured along the way: it never runs without end, even on a
/// curve whose `x` is not monotonic or whose slope vanishes.
pub proof fn lemma_search_terminates(range: TargetRange, probes: Seq<Probe>)
    requires
        probes.len() >= MAX_DECISIONS,
    ensures
        run(Search { phase: Phase::Newton { steps: 0 }, range }, probes).phase == Phase::Done,
{
    lemma_run_ends(Search { phase: Phase::Newton { steps: 0 }, range }, probes);
}

} // verus!
