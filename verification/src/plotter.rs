//! **plotter** models the lifecycle of the rendering threads: one spawned
//! thread per plot request, all of them awaited at the end.
//!
//! The plotter here is the decision side of that lifecycle. An unverified
//! runner performs the thread work: it spawns one rendering thread per
//! [`RenderTask`] handed out by [`Plotter::plot2d`], and at the end joins as
//! many threads as the [`JoinTicket`] from [`Plotter::join`] demands, feeding
//! the per-thread outcomes back into [`join_report`].

use crate::plotbuilder::PlotBuilder2D;
use vstd::prelude::*;

verus! {

/// The order given out by [`Plotter::plot2d`]: spawn one rendering thread and
/// move this request into it. The thread invokes the renderer's "open 2D plot
/// window" entry point on the request and returns when the window closes.
pub struct RenderTask<T, C> {
    pub request: PlotBuilder2D<T, C>,
}

/// The order given out by [`Plotter::join`]: await exactly `expected`
/// rendering threads, then account for their outcomes with [`join_report`].
#[derive(Clone, Copy, PartialEq, Eq, Structural, Debug)]
pub struct JoinTicket {
    pub expected: usize,
}

/// What joining all rendering threads found: how many threads were joined and
/// how many of them had failed instead of completing cleanly. Failures are
/// counted and reported rather than discarded.
#[derive(Clone, Copy, PartialEq, Eq, Structural, Debug)]
pub struct JoinReport {
    pub joined: usize,
    pub failures: usize,
}

/// How many of the per-thread outcomes are failures (`false` meaning the
/// rendering thread did not complete cleanly).
pub open spec fn count_failures(outcomes: Seq<bool>) -> nat
    decreases outcomes.len(),
{
    if outcomes.len() == 0 {
        0
    } else {
        count_failures(outcomes.drop_last()) + if outcomes.last() {
            0nat
        } else {
            1nat
        }
    }
}

/// Tracks how many rendering threads have been spawned and not yet joined.
/// A fresh plotter is idle (count zero); each `plot2d` moves it further into
/// the running state; `join` consumes it, which makes the joined state
/// terminal.
pub struct Plotter {
    spawned: usize,
}

impl Plotter {
    /// The number of rendering threads spawned so far.
    pub closed spec fn spawned_count(&self) -> int {
        self.spawned as int
    }

    /// Creates an idle plotter with no rendering threads outstanding.
    pub fn new() -> (p: Plotter)
        ensures
            p.spawned_count() == 0,
    {
        Plotter { spawned: 0 }
    }

    /// Accepts one plot request and accounts for one more rendering thread.
    /// The returned task carries the request, unchanged, for the thread that
    /// will render it; the call itself does not block.
    pub fn plot2d<T, C>(&mut self, plotbuilder: PlotBuilder2D<T, C>) -> (task: RenderTask<T, C>)
        requires
            old(self).spawned_count() < usize::MAX,
        ensures
            final(self).spawned_count() == old(self).spawned_count() + 1,
            task.request == plotbuilder,
    {
        self.spawned = self.spawned + 1;
        RenderTask { request: plotbuilder }
    }

    /// Consumes the plotter and demands that every spawned rendering thread be
    /// awaited: the ticket expects exactly as many threads as were spawned.
    pub fn join(self) -> (t: JoinTicket)
        ensures
            t.expected as int == self.spawned_count(),
    {
        JoinTicket { expected: self.spawned }
    }
}

/// Accounts for the outcomes of the joined rendering threads: one outcome per
/// thread the ticket expected, `true` where the thread completed cleanly. The
/// report counts every thread as joined and counts the failures exactly,
/// instead of discarding them.
pub fn join_report(ticket: JoinTicket, outcomes: &Vec<bool>) -> (r: JoinReport)
    requires
        outcomes@.len() == ticket.expected as int,
    ensures
        r.joined == ticket.expected,
        r.failures as nat == count_failures(outcomes@),
        r.failures <= r.joined,
{
    let mut failures: usize = 0;
    let mut i: usize = 0;
    while i < outcomes.len()
        invariant
            i <= outcomes@.len(),
            failures <= i,
            failures as nat == count_failures(outcomes@.take(i as int)),
        decreases outcomes@.len() - i,
    {
        if !outcomes[i] {
            failures = failures + 1;
        }
        proof {
            assert(outcomes@.take(i as int + 1).drop_last() =~= outcomes@.take(i as int));
            assert(outcomes@.take(i as int + 1).last() == outcomes@[i as int]);
        }
        i = i + 1;
    }
    proof {
        assert(outcomes@.take(outcomes@.len() as int) =~= outcomes@);
    }
    JoinReport { joined: outcomes.len(), failures: failures }
}

/// If every rendering thread completed cleanly, the join accounts for no
/// failure at all: spawning some number of requests and joining them yields
/// exactly that many clean completions.
pub proof fn lemma_all_completed_no_failures(outcomes: Seq<bool>)
    requires
        forall|i: int| 0 <= i < outcomes.len() ==> outcomes[i],
    ensures
        count_failures(outcomes) == 0,
    decreases outcomes.len(),
{
    if outcomes.len() > 0 {
        lemma_all_completed_no_failures(outcomes.drop_last());
    }
}

} // verus!
