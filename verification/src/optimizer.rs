//! The search: change one number of the candidate, score it, keep the change where the
//! score got strictly better, undo it otherwise. Nothing worse is ever accepted.
use vstd::prelude::*;
use crate::candidate::{lemma_revert_undoes_mutate, OldState, TriangleBuf};
use crate::scalar::{bits_less_than, less_than};

verus! {

/// Where the search stands within an iteration.
#[derive(Clone, Copy, Debug, PartialEq, Eq, Structural)]
pub enum Phase {
    /// A change is in place and the candidate's score is being worked out.
    Evaluating,
    /// Every change so far has been judged: the candidate is the best one known, and the
    /// next change can be made.
    Deciding,
}

/// What one iteration did.
#[derive(Clone, Copy, Debug, PartialEq, Eq, Structural)]
pub struct StepReport {
    /// The number that was changed, and what it held before.
    pub change: OldState,
    /// The score of the candidate with the change in place.
    pub mse: u32,
    /// Whether the change was kept. Where it was not, the number holds its old bits again.
    pub accepted: bool,
}

/// The candidate, the best score seen, the change that waits for its score, and the
/// count of iterations since the last redraw.
pub struct Optimizer {
    state: TriangleBuf,
    best_mse: u32,
    pending: Option<OldState>,
    iters: i32,
    draw_interval: i32,
}

/// The best score after a candidate with score `mse` was judged against `best`.
pub open spec fn best_after(best: u32, mse: u32) -> u32 {
    if less_than(mse, best) {
        mse
    } else {
        best
    }
}

/// The count of iterations after one more, and whether a redraw is due: it is once the
/// count has passed the interval, and the count then starts again. The count stops at
/// the largest number there is.
pub open spec fn tick_of(iters: i32, draw_interval: i32) -> (i32, bool) {
    if iters > draw_interval {
        (0i32, true)
    } else if iters < i32::MAX {
        ((iters + 1) as i32, false)
    } else {
        (iters, false)
    }
}

impl Optimizer {
    /// The numbers of the candidate.
    pub closed spec fn geometry(&self) -> Seq<u32> {
        self.state@
    }

    /// The candidate's cached score.
    pub closed spec fn cached(&self) -> Option<u32> {
        self.state.cached()
    }

    /// The best score so far.
    pub closed spec fn best(&self) -> u32 {
        self.best_mse
    }

    /// The change that waits for its score, if there is one.
    pub closed spec fn pending(&self) -> Option<OldState> {
        self.pending
    }

    /// Where the search stands: it evaluates while a change waits for its score.
    pub open spec fn spec_phase(&self) -> Phase {
        if self.pending() is Some {
            Phase::Evaluating
        } else {
            Phase::Deciding
        }
    }

    /// Iterations since the last redraw.
    pub closed spec fn spec_iters(&self) -> i32 {
        self.iters
    }

    /// Iterations to let pass between redraws.
    pub closed spec fn spec_draw_interval(&self) -> i32 {
        self.draw_interval
    }

    /// The candidate is in order, and a change that waits is a change of one of its numbers.
    pub closed spec fn wf(&self) -> bool {
        &&& self.state.wf()
        &&& self.pending matches Some(st) ==> st.id < self.state@.len()
    }

    /// Starts from a candidate: its score, read through its cache, is the best so far.
    pub fn new<F: FnOnce() -> u32>(state: TriangleBuf, draw_interval: i32, eval: F) -> (opt: Self)
        requires
            state.wf(),
            eval.requires(()),
        ensures
            opt.wf(),
            opt.geometry() == state@,
            opt.cached() == Some(opt.best()),
            state.cached() matches Some(val) ==> opt.best() == val,
            state.cached() is None ==> eval.ensures((), opt.best()),
            opt.pending() is None,
            opt.spec_iters() == 0,
            opt.spec_draw_interval() == draw_interval,
    {
        let mut state = state;
        let best_mse = state.calc_mse(eval);
        Optimizer { state, best_mse, pending: None, iters: 0, draw_interval }
    }

    /// The candidate as it stands.
    pub fn candidate(&self) -> (state: &TriangleBuf)
        ensures
            state@ == self.geometry(),
            state.cached() == self.cached(),
            self.wf() ==> state.wf(),
    {
        &self.state
    }

    /// The best score so far.
    pub fn best_mse(&self) -> (best: u32)
        ensures
            best == self.best(),
    {
        self.best_mse
    }

    /// Where the search stands.
    pub fn phase(&self) -> (phase: Phase)
        ensures
            phase == self.spec_phase(),
    {
        match self.pending {
            Some(_) => Phase::Evaluating,
            None => Phase::Deciding,
        }
    }

    /// Changes one number of the candidate, drawn by chance, to `fresh`. The change then
    /// waits for its score.
    pub fn mutate(&mut self, fresh: u32) -> (st: OldState)
        requires
            old(self).wf(),
            old(self).spec_phase() == Phase::Deciding,
            old(self).geometry().len() > 0,
        ensures
            final(self).wf(),
            final(self).pending() == Some(st),
            st.id < old(self).geometry().len(),
            st.val == old(self).geometry()[st.id as int],
            final(self).geometry() == old(self).geometry().update(st.id as int, fresh),
            final(self).cached() is None,
            final(self).best() == old(self).best(),
            final(self).spec_iters() == old(self).spec_iters(),
            final(self).spec_draw_interval() == old(self).spec_draw_interval(),
    {
        let st = self.state.mutate(fresh);
        self.pending = Some(st);
        st
    }

    /// Judges the candidate, whose score with the waiting change in place is `mse`: a
    /// score strictly below the best becomes the best and the change stays; else the
    /// change is undone.
    pub fn decide(&mut self, mse: u32) -> (report: StepReport)
        requires
            old(self).wf(),
            old(self).spec_phase() == Phase::Evaluating,
        ensures
            final(self).wf(),
            final(self).pending() is None,
            old(self).pending() == Some(report.change),
            report.mse == mse,
            report.accepted == less_than(mse, old(self).best()),
            final(self).best() == best_after(old(self).best(), mse),
            report.accepted ==> final(self).geometry() == old(self).geometry() && final(self).cached() == old(self).cached(),
            !report.accepted ==> final(self).geometry() == old(self).geometry().update(
                report.change.id as int,
                report.change.val,
            ) && final(self).cached() is None,
            final(self).spec_iters() == old(self).spec_iters(),
            final(self).spec_draw_interval() == old(self).spec_draw_interval(),
    {
        let change = match self.pending {
            Some(st) => st,
            None => OldState { id: 0, val: 0 },
        };
        self.pending = None;
        let accepted = bits_less_than(mse, self.best_mse);
        if accepted {
            self.best_mse = mse;
        } else {
            self.state.revert(change);
        }
        StepReport { change, mse, accepted }
    }

    /// One iteration: changes one number to `fresh`, has `eval` score the candidate
    /// (`eval` is told which number changed and to what), and keeps the change or undoes it.
    pub fn step<F: FnOnce(usize, u32) -> u32>(&mut self, fresh: u32, eval: F) -> (report:
        StepReport)
        requires
            old(self).wf(),
            old(self).spec_phase() == Phase::Deciding,
            old(self).geometry().len() > 0,
            forall|id: usize| id < old(self).geometry().len() ==> eval.requires((id, fresh)),
        ensures
            final(self).wf(),
            final(self).spec_phase() == Phase::Deciding,
            report.change.id < old(self).geometry().len(),
            report.change.val == old(self).geometry()[report.change.id as int],
            eval.ensures((report.change.id, fresh), report.mse),
            report.accepted == less_than(report.mse, old(self).best()),
            final(self).best() == best_after(old(self).best(), report.mse),
            report.accepted ==> final(self).geometry() == old(self).geometry().update(
                report.change.id as int,
                fresh,
            ) && final(self).cached() == Some(report.mse),
            !report.accepted ==> final(self).geometry() == old(self).geometry() && final(self).cached() is None,
            final(self).spec_iters() == old(self).spec_iters(),
            final(self).spec_draw_interval() == old(self).spec_draw_interval(),
    {
        let change = self.mutate(fresh);
        let id = change.id;
        let mse = self.state.calc_mse(|| -> (val: u32)
            requires eval.requires((id, fresh))
            ensures eval.ensures((id, fresh), val)
            { eval(id, fresh) });
        let report = self.decide(mse);
        proof {
            lemma_revert_undoes_mutate(old(self).geometry(), change.id as int, fresh);
        }
        report
    }

    /// Counts one iteration and tells whether a redraw is due.
    pub fn tick(&mut self) -> (redraw: bool)
        ensures
            (final(self).spec_iters(), redraw) == tick_of(
                old(self).spec_iters(),
                old(self).spec_draw_interval(),
            ),
            final(self).spec_draw_interval() == old(self).spec_draw_interval(),
            final(self).geometry() == old(self).geometry(),
            final(self).cached() == old(self).cached(),
            final(self).best() == old(self).best(),
            final(self).pending() == old(self).pending(),
            old(self).wf() ==> final(self).wf(),
    {
        if self.iters > self.draw_interval {
            self.iters = 0;
            true
        } else {
            if self.iters < i32::MAX {
                self.iters = self.iters + 1;
            }
            false
        }
    }

    /// Notes that the candidate was redrawn: the count starts again.
    pub fn redrawn(&mut self)
        ensures
            final(self).spec_iters() == 0,
            final(self).spec_draw_interval() == old(self).spec_draw_interval(),
            final(self).geometry() == old(self).geometry(),
            final(self).cached() == old(self).cached(),
            final(self).best() == old(self).best(),
            final(self).pending() == old(self).pending(),
            old(self).wf() ==> final(self).wf(),
    {
        self.iters = 0;
    }
}

/// The best score never gets worse: after a candidate was judged it is the old best or
/// strictly less than it.
pub proof fn lemma_best_never_increases(best: u32, mse: u32)
    ensures
        best_after(best, mse) == best || less_than(best_after(best, mse), best),
        !less_than(best, best_after(best, mse)),
{
}

} // verus!
