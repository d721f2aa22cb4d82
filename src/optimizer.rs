use vstd::prelude::*;
use crate::params::Params;
use crate::problem::Problem;
use crate::trajectory::Trajectory;
use crate::best::{offered, BestSoFar};
use crate::iteration::{close_iteration, offered_all, pso_close_iteration, pso_offer_all};
use crate::problem::recorded;

verus! {

/// An optimizer that has a name.
pub trait Name {
    fn name(&self) -> &String;
}

/// An optimizer that holds a population of particles of type `T`.
pub trait Particles<T> {
    fn particles(&self) -> &Vec<T>;

    fn particles_mut(&mut self) -> &mut Vec<T>;
}

/// The state of one optimizer run: its name, the problem it owns, its
/// hyperparameters, what it keeps of each particle, and its trajectory.
pub struct SwarmRun<T> {
    name: String,
    problem: Problem,
    params: Params,
    particles: Vec<T>,
    trajectory: Trajectory,
}

impl<T> SwarmRun<T> {
    pub closed spec fn name_spec(&self) -> Seq<char> {
        self.name@
    }

    pub closed spec fn problem_spec(&self) -> Problem {
        self.problem
    }

    pub closed spec fn params_spec(&self) -> Params {
        self.params
    }

    pub closed spec fn particles_spec(&self) -> Seq<T> {
        self.particles@
    }

    pub closed spec fn trajectory_spec(&self) -> Trajectory {
        self.trajectory
    }

    /// A run with no particles and an empty trajectory.
    pub fn new(name: String, problem: Problem, params: Params) -> (r: SwarmRun<T>)
        ensures
            r.name_spec() == name@,
            r.problem_spec() == problem,
            r.params_spec() == params,
            r.particles_spec().len() == 0,
            r.trajectory_spec().wf(),
            r.trajectory_spec().global_spec() is None,
            r.trajectory_spec().log_spec().len() == 0,
    {
        SwarmRun { name, problem, params, particles: Vec::new(), trajectory: Trajectory::new() }
    }

    pub fn problem(&self) -> (r: &Problem)
        ensures
            *r == self.problem_spec(),
    {
        &self.problem
    }

    pub fn params(&self) -> (r: &Params)
        ensures
            *r == self.params_spec(),
    {
        &self.params
    }

    pub fn trajectory(&self) -> (r: &Trajectory)
        ensures
            *r == self.trajectory_spec(),
    {
        &self.trajectory
    }

    /// Records a fresh evaluation in the run's problem.
    pub fn record_evaluation(&mut self, pos: Vec<u64>, fitness: u64)
        requires
            old(self).problem_spec().wf(),
            old(self).problem_spec().cached_spec(pos@) is None,
            old(self).problem_spec().count_spec() < u64::MAX,
        ensures
            recorded(old(self).problem_spec(), final(self).problem_spec(), pos@, fitness),
            final(self).trajectory_spec() == old(self).trajectory_spec(),
            final(self).particles_spec() == old(self).particles_spec(),
            final(self).params_spec() == old(self).params_spec(),
            final(self).name_spec() == old(self).name_spec(),
    {
        self.problem.record(pos, fitness);
    }

    /// Closes a GSA iteration: every particle's new position is offered for
    /// the global best, in order, and the iteration is logged.
    pub fn close_gsa_iteration(&mut self, positions: &Vec<Vec<u64>>, fitness: &Vec<u64>)
        requires
            old(self).trajectory_spec().wf(),
            positions@.len() == fitness@.len(),
            positions@.len() > 0 || old(self).trajectory_spec().global_spec() is Some,
        ensures
            final(self).trajectory_spec().wf(),
            final(self).trajectory_spec().global_spec() == offered_all(old(self).trajectory_spec().global_spec(), positions@, fitness@, positions@.len() as int),
            final(self).trajectory_spec().log_spec() == old(self).trajectory_spec().log_spec().push(final(self).trajectory_spec().global_spec().unwrap().1),
            final(self).problem_spec() == old(self).problem_spec(),
            final(self).particles_spec() == old(self).particles_spec(),
            final(self).params_spec() == old(self).params_spec(),
            final(self).name_spec() == old(self).name_spec(),
    {
        close_iteration(&mut self.trajectory, positions, fitness);
    }
}

impl SwarmRun<BestSoFar> {
    /// Adds a particle with no best position yet.
    pub fn add_particle(&mut self)
        ensures
            final(self).particles_spec().len() == old(self).particles_spec().len() + 1,
            final(self).particles_spec().last()@ is None,
            final(self).particles_spec().drop_last() == old(self).particles_spec(),
            final(self).problem_spec() == old(self).problem_spec(),
            final(self).trajectory_spec() == old(self).trajectory_spec(),
            final(self).params_spec() == old(self).params_spec(),
            final(self).name_spec() == old(self).name_spec(),
    {
        self.particles.push(BestSoFar::new());
        proof {
            assert(self.particles@.drop_last() =~= old(self).particles@);
        }
    }

    /// Offers each particle's position to its own best and to the global
    /// best, logging nothing: used on a population's first evaluation.
    pub fn offer_pso_positions(&mut self, positions: &Vec<Vec<u64>>, fitness: &Vec<u64>)
        requires
            old(self).trajectory_spec().wf(),
            positions@.len() == fitness@.len(),
            old(self).particles_spec().len() == positions@.len(),
        ensures
            final(self).trajectory_spec().wf(),
            final(self).particles_spec().len() == old(self).particles_spec().len(),
            forall|k: int| 0 <= k < positions@.len() ==> #[trigger] final(self).particles_spec()[k]@ == offered(old(self).particles_spec()[k]@, positions@[k]@, fitness@[k]),
            final(self).trajectory_spec().global_spec() == offered_all(old(self).trajectory_spec().global_spec(), positions@, fitness@, positions@.len() as int),
            final(self).trajectory_spec().log_spec() == old(self).trajectory_spec().log_spec(),
            final(self).problem_spec() == old(self).problem_spec(),
            final(self).params_spec() == old(self).params_spec(),
            final(self).name_spec() == old(self).name_spec(),
    {
        pso_offer_all(&mut self.particles, &mut self.trajectory, positions, fitness);
    }

    /// Closes a PSO iteration: each particle offers its new position to its
    /// own best, then to the global best, and the iteration is logged.
    pub fn close_pso_iteration(&mut self, positions: &Vec<Vec<u64>>, fitness: &Vec<u64>)
        requires
            old(self).trajectory_spec().wf(),
            positions@.len() == fitness@.len(),
            old(self).particles_spec().len() == positions@.len(),
            positions@.len() > 0 || old(self).trajectory_spec().global_spec() is Some,
        ensures
            final(self).trajectory_spec().wf(),
            final(self).particles_spec().len() == old(self).particles_spec().len(),
            forall|k: int| 0 <= k < positions@.len() ==> #[trigger] final(self).particles_spec()[k]@ == offered(old(self).particles_spec()[k]@, positions@[k]@, fitness@[k]),
            final(self).trajectory_spec().global_spec() == offered_all(old(self).trajectory_spec().global_spec(), positions@, fitness@, positions@.len() as int),
            final(self).trajectory_spec().log_spec() == old(self).trajectory_spec().log_spec().push(final(self).trajectory_spec().global_spec().unwrap().1),
            final(self).problem_spec() == old(self).problem_spec(),
            final(self).params_spec() == old(self).params_spec(),
            final(self).name_spec() == old(self).name_spec(),
    {
        pso_close_iteration(&mut self.particles, &mut self.trajectory, positions, fitness);
    }
}

impl<T> Name for SwarmRun<T> {
    fn name(&self) -> &String {
        &self.name
    }
}

impl<T> Particles<T> for SwarmRun<T> {
    fn particles(&self) -> &Vec<T> {
        &self.particles
    }

    fn particles_mut(&mut self) -> &mut Vec<T> {
        &mut self.particles
    }
}

} // verus!
