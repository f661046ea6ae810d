use vstd::prelude::*;
use crate::config::ConfigView;

verus! {

pub const SECOND_AS_NANO: u64 = 1_000_000_000;

/// After this many overlong iterations the poll rate is reported as too high.
pub const MISSMATCH_LIMIT: u32 = 25;

/// What to do at the end of one poll iteration.
#[derive(Debug, Clone, Copy, PartialEq, Eq)]
pub struct Pace {
    /// How long to sleep, in nanoseconds.
    pub remaining: u64,
    /// Whether to warn that the poll rate is too high.
    pub warn: bool,
}

/// Keeps the poll loop at its target rate.
#[derive(Clone, Copy)]
pub struct Pacer {
    target_interval: u64,
    missmatch_count: u32,
    /// Every overrun so far, without limit.
    overrun_total: Ghost<nat>,
}

impl Pacer {
    /// The length of one iteration, in nanoseconds.
    pub closed spec fn target(&self) -> u64 {
        self.target_interval
    }

    /// How many iterations have overrun their target so far (up to the limit).
    pub closed spec fn missmatches(&self) -> u32 {
        self.missmatch_count
    }

    /// How many iterations have overrun their target so far, in all.
    pub closed spec fn overruns(&self) -> nat {
        self.overrun_total@
    }

    /// The counted overruns are all overruns, up to the limit.
    pub closed spec fn wf(&self) -> bool {
        &&& self.missmatch_count <= MISSMATCH_LIMIT
        &&& self.overrun_total@ < MISSMATCH_LIMIT ==> self.missmatch_count == self.overrun_total@
        &&& self.overrun_total@ >= MISSMATCH_LIMIT ==> self.missmatch_count == MISSMATCH_LIMIT
    }

    /// Paces a loop that runs `poll_rate` times a second.
    pub fn new(poll_rate: u16) -> (r: Pacer)
        requires
            poll_rate != 0,
        ensures
            r.target() == SECOND_AS_NANO / (poll_rate as u64),
            r.missmatches() == 0,
            r.overruns() == 0,
            r.wf(),
    {
        Pacer {
            target_interval: SECOND_AS_NANO / (poll_rate as u64),
            missmatch_count: 0,
            overrun_total: Ghost(0),
        }
    }

    pub fn target_interval(&self) -> (r: u64)
        ensures
            r == self.target(),
    {
        self.target_interval
    }

    pub fn missmatch_count(&self) -> (r: u32)
        ensures
            r == self.missmatches(),
    {
        self.missmatch_count
    }

    /// Decides how long to sleep after an iteration that took `elapsed`
    /// nanoseconds: the rest of the target interval, or nothing if the
    /// iteration overran it. Overruns are counted up to the limit; one past
    /// the limit asks for a warning: a warning comes only for an overrun
    /// that follows at least 25 earlier ones.
    pub fn pace(&mut self, elapsed: u64) -> (r: Pace)
        requires
            old(self).wf(),
        ensures
            final(self).wf(),
            final(self).target() == old(self).target(),
            final(self).overruns() == if elapsed > old(self).target() {
                old(self).overruns() + 1
            } else {
                old(self).overruns()
            },
            r.warn <==> elapsed > old(self).target() && old(self).overruns() >= MISSMATCH_LIMIT,
            elapsed <= old(self).target() ==> r == (Pace {
                remaining: (old(self).target() - elapsed) as u64,
                warn: false,
            }) && final(self).missmatches() == old(self).missmatches(),
            elapsed > old(self).target() && old(self).missmatches() >= MISSMATCH_LIMIT ==> r == (
            Pace { remaining: 0, warn: true }) && final(self).missmatches() == old(
                self,
            ).missmatches(),
            elapsed > old(self).target() && old(self).missmatches() < MISSMATCH_LIMIT ==> r == (
            Pace { remaining: 0, warn: false }) && final(self).missmatches() == old(
                self,
            ).missmatches() + 1,
    {
        if elapsed <= self.target_interval {
            Pace { remaining: self.target_interval - elapsed, warn: false }
        } else {
            self.overrun_total = Ghost(self.overrun_total@ + 1);
            if self.missmatch_count >= MISSMATCH_LIMIT {
                Pace { remaining: 0, warn: true }
            } else {
                self.missmatch_count = self.missmatch_count + 1;
                Pace { remaining: 0, warn: false }
            }
        }
    }
}

/// A second is 10^9 nanoseconds, and the warning limit is 25 overruns.
pub proof fn lemma_pacing_constants()
    ensures
        SECOND_AS_NANO == 1_000_000_000,
        MISSMATCH_LIMIT == 25,
{
}

/// A checked configuration can always be paced: its poll rate is not zero,
/// and one iteration lasts between a millisecond and a second.
pub proof fn lemma_valid_config_interval(c: ConfigView)
    requires
        c.valid(),
    ensures
        c.poll_rate != 0,
        1_000_000 <= SECOND_AS_NANO / (c.poll_rate as u64) <= SECOND_AS_NANO,
{
    let p = c.poll_rate as int;
    assert(1 <= p <= 1000);
    assert(1_000_000int <= 1_000_000_000int / p <= 1_000_000_000int) by (nonlinear_arith)
        requires
            1 <= p <= 1000,
    ;
}

} // verus!
