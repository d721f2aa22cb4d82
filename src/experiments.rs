use vstd::prelude::*;
use crate::params::ParamName;
use crate::plans::{
    alpha_axis, alpha_options, decimals, g0_axis, g0_options, gsa_grid_base_params, gsa_grid_base_settings,
    gsa_params, gsa_settings, params_are, phi_axis, phi_options, pso_grid_base_params, pso_grid_base_settings,
    pso_params, pso_settings, Algorithm, GridSweepPlan, RunPlan,
};

verus! {

/// The benchmark functions that the sweeps cover: 1 to 30, all but 2.
pub open spec fn sweep_function_id(k: int) -> u64 {
    if k == 0 { 1 } else { (k + 2) as u64 }
}

/// The benchmark functions that the sweeps cover, in order.
pub fn sweep_function_ids() -> (r: Vec<u64>)
    ensures
        r@.len() == 29,
        forall|k: int| 0 <= k < 29 ==> #[trigger] r@[k] == sweep_function_id(k),
{
    let mut r: Vec<u64> = Vec::new();
    let mut f: u64 = 1;
    while f <= 30
        invariant
            1 <= f <= 31,
            r@.len() == if f <= 2 { f - 1 } else { f - 2 },
            forall|k: int| 0 <= k < r@.len() ==> #[trigger] r@[k] == sweep_function_id(k),
        decreases 31 - f,
    {
        if f != 2 {
            r.push(f);
        }
        f += 1;
    }
    r
}

/// One PSO run of 1000 iterations on benchmark function 1 in 10 dimensions.
pub fn run_pso() -> (r: RunPlan)
    ensures
        r.algorithm == Algorithm::Pso,
        r.label@ == "PSO"@,
        r.function_id == 1,
        r.dim == 10,
        r.iterations == 1000,
        params_are(r.params, pso_settings()),
        r.out_dir@ == "data/test/pso"@,
{
    RunPlan {
        algorithm: Algorithm::Pso,
        label: "PSO",
        function_id: 1,
        dim: 10,
        iterations: 1000,
        params: pso_params(),
        out_dir: "data/test/pso",
    }
}

/// One GSA run of 1000 iterations on benchmark function 1 in 30 dimensions.
pub fn run_gsa() -> (r: RunPlan)
    ensures
        r.algorithm == Algorithm::Gsa,
        r.label@ == "GSA"@,
        r.function_id == 1,
        r.dim == 30,
        r.iterations == 1000,
        params_are(r.params, gsa_settings()),
        r.out_dir@ == "data/test/gsa"@,
{
    RunPlan {
        algorithm: Algorithm::Gsa,
        label: "GSA",
        function_id: 1,
        dim: 30,
        iterations: 1000,
        params: gsa_params(),
        out_dir: "data/test/gsa",
    }
}

/// Grid search of GSA's g0 and alpha, 1000 iterations and 5 attempts per
/// configuration, on the swept functions in 100 dimensions.
pub fn run_grid_search_gsa() -> (r: GridSweepPlan)
    ensures
        r.algorithm == Algorithm::Gsa,
        r.label@ == "GSA"@,
        r.function_ids@.len() == 29,
        forall|k: int| 0 <= k < 29 ==> #[trigger] r.function_ids@[k] == sweep_function_id(k),
        r.dim == 100,
        r.iterations == 1000,
        r.attempts == 5,
        r.axis_a.name == ParamName::G0,
        r.axis_a.values@ == decimals(g0_options()),
        r.axis_b.name == ParamName::Alpha,
        r.axis_b.values@ == decimals(alpha_options()),
        params_are(r.base, gsa_grid_base_settings()),
        r.out_dir@ == "data/gsa_100/grid_search"@,
{
    GridSweepPlan {
        algorithm: Algorithm::Gsa,
        label: "GSA",
        function_ids: sweep_function_ids(),
        dim: 100,
        iterations: 1000,
        attempts: 5,
        axis_a: g0_axis(),
        axis_b: alpha_axis(),
        base: gsa_grid_base_params(),
        out_dir: "data/gsa_100/grid_search",
    }
}

/// Grid search of PSO's phi_p and phi_g, 1000 iterations and 5 attempts per
/// configuration, on the swept functions in 100 dimensions.
pub fn run_grid_search_pso() -> (r: GridSweepPlan)
    ensures
        r.algorithm == Algorithm::Pso,
        r.label@ == "PSO"@,
        r.function_ids@.len() == 29,
        forall|k: int| 0 <= k < 29 ==> #[trigger] r.function_ids@[k] == sweep_function_id(k),
        r.dim == 100,
        r.iterations == 1000,
        r.attempts == 5,
        r.axis_a.name == ParamName::PhiP,
        r.axis_a.values@ == decimals(phi_options()),
        r.axis_b.name == ParamName::PhiG,
        r.axis_b.values@ == decimals(phi_options()),
        params_are(r.base, pso_grid_base_settings()),
        r.out_dir@ == "data/pso_100/grid_search"@,
{
    GridSweepPlan {
        algorithm: Algorithm::Pso,
        label: "PSO",
        function_ids: sweep_function_ids(),
        dim: 100,
        iterations: 1000,
        attempts: 5,
        axis_a: phi_axis(ParamName::PhiP),
        axis_b: phi_axis(ParamName::PhiG),
        base: pso_grid_base_params(),
        out_dir: "data/pso_100/grid_search",
    }
}

} // verus!
