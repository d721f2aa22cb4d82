use vstd::prelude::*;
use crate::params::ParamName;
use crate::plans::{
    alpha_axis, alpha_options, decimals, g0_axis, g0_options, gsa_grid_base_params, gsa_grid_base_settings,
    gsa_params, gsa_settings, params_are, phi_axis, phi_options, pso_grid_base_params, pso_grid_base_settings,
    pso_params, pso_settings, tiled_gsa_params, tiled_gsa_settings, Algorithm, SuiteGridPlan, SuitePlan,
};

verus! {

/// PSO over the function suite with its default settings.
pub fn pso_cec17(iterations: usize, dim: usize, attempts: usize) -> (r: SuitePlan)
    ensures
        r.algorithm == Algorithm::Pso,
        r.label@ == "PSO"@,
        r.iterations == iterations,
        r.dim == dim,
        r.attempts == attempts,
        params_are(r.params, pso_settings()),
        r.out_root@ == "data/test"@,
{
    SuitePlan { algorithm: Algorithm::Pso, label: "PSO", iterations, dim, attempts, params: pso_params(), out_root: "data/test" }
}

/// GSA over the function suite with its default settings.
pub fn gsa_cec17(iterations: usize, dim: usize, attempts: usize) -> (r: SuitePlan)
    ensures
        r.algorithm == Algorithm::Gsa,
        r.label@ == "GSA"@,
        r.iterations == iterations,
        r.dim == dim,
        r.attempts == attempts,
        params_are(r.params, gsa_settings()),
        r.out_root@ == "data/test"@,
{
    SuitePlan { algorithm: Algorithm::Gsa, label: "GSA", iterations, dim, attempts, params: gsa_params(), out_root: "data/test" }
}

/// Tiled GSA over the function suite with its default settings.
pub fn tiled_gsa_cec17(iterations: usize, dim: usize, attempts: usize) -> (r: SuitePlan)
    ensures
        r.algorithm == Algorithm::TiledGsa,
        r.label@ == "TiledGSA"@,
        r.iterations == iterations,
        r.dim == dim,
        r.attempts == attempts,
        params_are(r.params, tiled_gsa_settings()),
        r.out_root@ == "data/test"@,
{
    SuitePlan {
        algorithm: Algorithm::TiledGsa,
        label: "TiledGSA",
        iterations,
        dim,
        attempts,
        params: tiled_gsa_params(),
        out_root: "data/test",
    }
}

/// Grid search of PSO's phi_p and phi_g over the function suite.
pub fn grid_search_pso(iterations: usize, dim: usize, attempts: usize) -> (r: SuiteGridPlan)
    ensures
        r.algorithm == Algorithm::Pso,
        r.label@ == "PSO"@,
        r.attempts == attempts,
        r.iterations == iterations,
        r.axis_a.name == ParamName::PhiP,
        r.axis_a.values@ == decimals(phi_options()),
        r.axis_b.name == ParamName::PhiG,
        r.axis_b.values@ == decimals(phi_options()),
        params_are(r.base, pso_grid_base_settings()),
        r.dim == dim,
        r.out_root@ == "data/grid_search"@,
{
    SuiteGridPlan {
        algorithm: Algorithm::Pso,
        label: "PSO",
        attempts,
        iterations,
        axis_a: phi_axis(ParamName::PhiP),
        axis_b: phi_axis(ParamName::PhiG),
        base: pso_grid_base_params(),
        dim,
        out_root: "data/grid_search",
    }
}

/// Grid search of GSA's g0 and alpha over the function suite.
pub fn grid_search_gsa(iterations: usize, dim: usize, attempts: usize) -> (r: SuiteGridPlan)
    ensures
        r.algorithm == Algorithm::Gsa,
        r.label@ == "GSA"@,
        r.attempts == attempts,
        r.iterations == iterations,
        r.axis_a.name == ParamName::G0,
        r.axis_a.values@ == decimals(g0_options()),
        r.axis_b.name == ParamName::Alpha,
        r.axis_b.values@ == decimals(alpha_options()),
        params_are(r.base, gsa_grid_base_settings()),
        r.dim == dim,
        r.out_root@ == "data/grid_search"@,
{
    SuiteGridPlan {
        algorithm: Algorithm::Gsa,
        label: "GSA",
        attempts,
        iterations,
        axis_a: g0_axis(),
        axis_b: alpha_axis(),
        base: gsa_grid_base_params(),
        dim,
        out_root: "data/grid_search",
    }
}

/// Grid search of tiled GSA's g0 and alpha over the function suite. Its
/// results carry the GSA label, as the method is the same.
pub fn grid_search_tiled_gsa(iterations: usize, dim: usize, attempts: usize) -> (r: SuiteGridPlan)
    ensures
        r.algorithm == Algorithm::TiledGsa,
        r.label@ == "GSA"@,
        r.attempts == attempts,
        r.iterations == iterations,
        r.axis_a.name == ParamName::G0,
        r.axis_a.values@ == decimals(g0_options()),
        r.axis_b.name == ParamName::Alpha,
        r.axis_b.values@ == decimals(alpha_options()),
        params_are(r.base, gsa_grid_base_settings()),
        r.dim == dim,
        r.out_root@ == "data/grid_search"@,
{
    SuiteGridPlan {
        algorithm: Algorithm::TiledGsa,
        label: "GSA",
        attempts,
        iterations,
        axis_a: g0_axis(),
        axis_b: alpha_axis(),
        base: gsa_grid_base_params(),
        dim,
        out_root: "data/grid_search",
    }
}

} // verus!
