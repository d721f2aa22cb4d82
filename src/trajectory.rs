use vstd::prelude::*;
use crate::best::{offered, BestSoFar};

verus! {

/// The global best of a run and the log of its fitness, one entry per
/// finished iteration.
pub struct Trajectory {
    global: BestSoFar,
    log: Vec<u64>,
}

impl Trajectory {
    pub closed spec fn global_spec(&self) -> Option<(Seq<u64>, u64)> {
        self.global@
    }

    pub closed spec fn log_spec(&self) -> Seq<u64> {
        self.log@
    }

    /// The log never rises, and the global best is at least as good as its
    /// last entry.
    pub open spec fn wf(&self) -> bool {
        &&& forall|i: int, j: int| 0 <= i <= j < self.log_spec().len() ==> #[trigger] self.log_spec()[j] <= #[trigger] self.log_spec()[i]
        &&& self.log_spec().len() > 0 ==> {
            &&& self.global_spec() is Some
            &&& self.global_spec().unwrap().1 <= self.log_spec().last()
        }
    }

    pub fn new() -> (r: Trajectory)
        ensures
            r.wf(),
            r.global_spec() is None,
            r.log_spec().len() == 0,
    {
        Trajectory { global: BestSoFar::new(), log: Vec::new() }
    }

    /// Offers a candidate for the global best: it is taken only where there is
    /// none yet or its fitness is strictly lower. Returns whether it was taken.
    pub fn update_global_best_pos(&mut self, pos: Vec<u64>, fitness: u64) -> (r: bool)
        requires
            old(self).wf(),
        ensures
            final(self).wf(),
            final(self).global_spec() == offered(old(self).global_spec(), pos@, fitness),
            final(self).log_spec() == old(self).log_spec(),
            r == (old(self).global_spec() is None || fitness < old(self).global_spec().unwrap().1),
    {
        self.global.offer(pos, fitness)
    }

    /// Closes an iteration: logs the fitness of the global best.
    pub fn add_data(&mut self)
        requires
            old(self).wf(),
            old(self).global_spec() is Some,
        ensures
            final(self).wf(),
            final(self).global_spec() == old(self).global_spec(),
            final(self).log_spec() == old(self).log_spec().push(old(self).global_spec().unwrap().1),
    {
        let f = self.global.fitness().unwrap();
        self.log.push(f);
    }

    pub fn global_best(&self) -> (r: &BestSoFar)
        ensures
            r@ == self.global_spec(),
    {
        &self.global
    }

    /// The global best fitness logged after each iteration.
    pub fn data(&self) -> (r: &Vec<u64>)
        ensures
            r@ == self.log_spec(),
    {
        &self.log
    }
}

/// Monotonicity: over any run, the logged global best fitness never rises.
pub proof fn law_log_non_increasing(t: Trajectory, i: int, j: int)
    requires
        t.wf(),
        0 <= i <= j < t.log_spec().len(),
    ensures
        t.log_spec()[j] <= t.log_spec()[i],
{
}

} // verus!
