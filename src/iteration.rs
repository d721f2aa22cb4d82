use vstd::prelude::*;
use crate::best::{offered, BestSoFar};
use crate::trajectory::Trajectory;

verus! {

/// The global best after offering the first `n` candidates, in order, to `g`.
pub open spec fn offered_all(g: Option<(Seq<u64>, u64)>, positions: Seq<Vec<u64>>, fitness: Seq<u64>, n: int) -> Option<(Seq<u64>, u64)>
    decreases n,
{
    if n <= 0 {
        g
    } else {
        offered(offered_all(g, positions, fitness, n - 1), positions[n - 1]@, fitness[n - 1])
    }
}

/// A copy of a position.
pub fn copy_position(p: &Vec<u64>) -> (r: Vec<u64>)
    ensures
        r@ == p@,
{
    let mut r: Vec<u64> = Vec::with_capacity(p.len());
    let mut i: usize = 0;
    while i < p.len()
        invariant
            0 <= i <= p@.len(),
            r@ == p@.subrange(0, i as int),
        decreases p@.len() - i,
    {
        r.push(p[i]);
        i += 1;
        proof {
            assert(r@ =~= p@.subrange(0, i as int));
        }
    }
    proof {
        assert(r@ =~= p@);
    }
    r
}

/// Offers each candidate, in order, for the global best, then logs the
/// iteration. This is what closes an iteration of both GSA variants.
pub fn close_iteration(traj: &mut Trajectory, positions: &Vec<Vec<u64>>, fitness: &Vec<u64>)
    requires
        old(traj).wf(),
        positions@.len() == fitness@.len(),
        positions@.len() > 0 || old(traj).global_spec() is Some,
    ensures
        final(traj).wf(),
        final(traj).global_spec() == offered_all(old(traj).global_spec(), positions@, fitness@, positions@.len() as int),
        final(traj).log_spec() == old(traj).log_spec().push(final(traj).global_spec().unwrap().1),
{
    let ghost g0 = traj.global_spec();
    let ghost log0 = traj.log_spec();
    let mut i: usize = 0;
    while i < positions.len()
        invariant
            traj.wf(),
            positions@.len() == fitness@.len(),
            0 <= i <= positions@.len(),
            traj.global_spec() == offered_all(g0, positions@, fitness@, i as int),
            traj.log_spec() == log0,
            positions@.len() > 0 || g0 is Some,
            (i > 0 || g0 is Some) ==> traj.global_spec() is Some,
        decreases positions@.len() - i,
    {
        let p = copy_position(&positions[i]);
        traj.update_global_best_pos(p, fitness[i]);
        i += 1;
    }
    traj.add_data();
}

/// Each particle offers its position to its own best, then to the global
/// best, in particle order. Nothing is logged: this is how a population's
/// first evaluation, and the end of each PSO iteration, updates the bests.
pub fn pso_offer_all(
    personal: &mut Vec<BestSoFar>,
    traj: &mut Trajectory,
    positions: &Vec<Vec<u64>>,
    fitness: &Vec<u64>,
)
    requires
        old(traj).wf(),
        positions@.len() == fitness@.len(),
        old(personal)@.len() == positions@.len(),
    ensures
        final(traj).wf(),
        final(personal)@.len() == old(personal)@.len(),
        forall|k: int| 0 <= k < positions@.len() ==> #[trigger] final(personal)@[k]@ == offered(old(personal)@[k]@, positions@[k]@, fitness@[k]),
        final(traj).global_spec() == offered_all(old(traj).global_spec(), positions@, fitness@, positions@.len() as int),
        final(traj).log_spec() == old(traj).log_spec(),
{
    let ghost p0 = personal@;
    let ghost g0 = traj.global_spec();
    let ghost log0 = traj.log_spec();
    let mut i: usize = 0;
    while i < positions.len()
        invariant
            traj.wf(),
            positions@.len() == fitness@.len(),
            personal@.len() == positions@.len(),
            p0.len() == positions@.len(),
            0 <= i <= positions@.len(),
            forall|k: int| 0 <= k < i ==> #[trigger] personal@[k]@ == offered(p0[k]@, positions@[k]@, fitness@[k]),
            forall|k: int| i <= k < positions@.len() ==> #[trigger] personal@[k] == p0[k],
            traj.global_spec() == offered_all(g0, positions@, fitness@, i as int),
            traj.log_spec() == log0,
        decreases positions@.len() - i,
    {
        let p = copy_position(&positions[i]);
        personal[i].offer(p, fitness[i]);
        let q = copy_position(&positions[i]);
        traj.update_global_best_pos(q, fitness[i]);
        i += 1;
    }
}

/// One PSO iteration's bookkeeping, once every particle has moved and its new
/// position has been evaluated: the bests are offered as in `pso_offer_all`,
/// then the iteration is logged.
pub fn pso_close_iteration(
    personal: &mut Vec<BestSoFar>,
    traj: &mut Trajectory,
    positions: &Vec<Vec<u64>>,
    fitness: &Vec<u64>,
)
    requires
        old(traj).wf(),
        positions@.len() == fitness@.len(),
        old(personal)@.len() == positions@.len(),
        positions@.len() > 0 || old(traj).global_spec() is Some,
    ensures
        final(traj).wf(),
        final(personal)@.len() == old(personal)@.len(),
        forall|k: int| 0 <= k < positions@.len() ==> #[trigger] final(personal)@[k]@ == offered(old(personal)@[k]@, positions@[k]@, fitness@[k]),
        final(traj).global_spec() == offered_all(old(traj).global_spec(), positions@, fitness@, positions@.len() as int),
        final(traj).log_spec() == old(traj).log_spec().push(final(traj).global_spec().unwrap().1),
{
    pso_offer_all(personal, traj, positions, fitness);
    traj.add_data();
}

} // verus!
