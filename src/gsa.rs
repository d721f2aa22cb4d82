use vstd::prelude::*;

verus! {

/// How one GSA iteration turns fitness into mass.
pub enum MassRule {
    /// Every particle has the same fitness: all masses are equal.
    Uniform,
    /// Raw mass is `(fitness - worst) / (best - worst)`, with `best` strictly
    /// better than `worst`, so the divisor is never zero.
    Scaled { best: u64, worst: u64 },
}

pub open spec fn all_equal(f: Seq<u64>) -> bool {
    forall|i: int, j: int| 0 <= i < f.len() && 0 <= j < f.len() ==> f[i] == f[j]
}

pub open spec fn is_min(f: Seq<u64>, m: u64) -> bool {
    &&& exists|i: int| 0 <= i < f.len() && f[i] == m
    &&& forall|i: int| 0 <= i < f.len() ==> m <= #[trigger] f[i]
}

pub open spec fn is_max(f: Seq<u64>, m: u64) -> bool {
    &&& exists|i: int| 0 <= i < f.len() && f[i] == m
    &&& forall|i: int| 0 <= i < f.len() ==> #[trigger] f[i] <= m
}

/// `r` is the mass rule for a population of fitness `f`.
pub open spec fn picks_mass_rule(f: Seq<u64>, r: MassRule) -> bool {
    &&& r is Uniform <==> all_equal(f)
    &&& r matches MassRule::Scaled { best, worst } ==> best < worst && is_min(f, best) && is_max(f, worst)
}

/// Picks the mass rule of an iteration from the fitness of each particle
/// (order keys): uniform mass where best and worst coincide, else scaled
/// between the best and the worst fitness of the population.
pub fn mass_rule(fitness: &Vec<u64>) -> (r: MassRule)
    requires
        fitness@.len() > 0,
    ensures
        picks_mass_rule(fitness@, r),
{
    let mut best = fitness[0];
    let mut worst = fitness[0];
    let mut i: usize = 1;
    while i < fitness.len()
        invariant
            1 <= i <= fitness@.len(),
            best <= worst,
            exists|k: int| 0 <= k < i && fitness@[k] == best,
            exists|k: int| 0 <= k < i && fitness@[k] == worst,
            forall|k: int| 0 <= k < i ==> best <= #[trigger] fitness@[k] && fitness@[k] <= worst,
        decreases fitness@.len() - i,
    {
        if fitness[i] < best {
            best = fitness[i];
        }
        if fitness[i] > worst {
            worst = fitness[i];
        }
        i += 1;
    }
    if best == worst {
        MassRule::Uniform
    } else {
        proof {
            let kb = choose|k: int| 0 <= k < fitness@.len() && fitness@[k] == best;
            let kw = choose|k: int| 0 <= k < fitness@.len() && fitness@[k] == worst;
            assert(fitness@[kb] != fitness@[kw]);
        }
        MassRule::Scaled { best, worst }
    }
}

/// Degenerate case: where every particle has the same fitness, mass is
/// uniform and no division by `best - worst` takes place.
pub proof fn law_equal_fitness_uniform_mass(fitness: Seq<u64>, r: MassRule)
    requires
        fitness.len() > 0,
        forall|i: int| 0 <= i < fitness.len() ==> #[trigger] fitness[i] == fitness[0],
        picks_mass_rule(fitness, r),
    ensures
        r is Uniform,
{
}

} // verus!
