use vstd::prelude::*;
use crate::grid::Axis;
use crate::params::{ParamName, ParamValue, Params};

verus! {

/// The optimizers of this library.
#[derive(PartialEq, Eq, Structural, Clone, Copy, Debug)]
pub enum Algorithm {
    Pso,
    Gsa,
    TiledGsa,
}

impl Algorithm {
    /// The directory, under a study's root and dimension, that holds the
    /// results of this optimizer.
    pub fn dir_name(&self) -> (r: &'static str)
        ensures
            r@ == algorithm_dir(*self),
    {
        match self {
            Algorithm::Pso => "pso",
            Algorithm::Gsa => "gsa",
            Algorithm::TiledGsa => "tiled_gsa",
        }
    }
}

pub open spec fn algorithm_dir(a: Algorithm) -> Seq<char> {
    match a {
        Algorithm::Pso => "pso"@,
        Algorithm::Gsa => "gsa"@,
        Algorithm::TiledGsa => "tiled_gsa"@,
    }
}

/// A benchmark over the whole function suite: each function run `attempts`
/// times; results go to `<out_root>/<dim>/<algorithm dir>`.
pub struct SuitePlan {
    pub algorithm: Algorithm,
    pub label: &'static str,
    pub iterations: usize,
    pub dim: usize,
    pub attempts: usize,
    pub params: Params,
    pub out_root: &'static str,
}

/// A grid search over the whole function suite; results go to
/// `<out_root>/<dim>/<algorithm dir>`.
pub struct SuiteGridPlan {
    pub algorithm: Algorithm,
    pub label: &'static str,
    pub attempts: usize,
    pub iterations: usize,
    pub axis_a: Axis,
    pub axis_b: Axis,
    pub base: Params,
    pub dim: usize,
    pub out_root: &'static str,
}

/// One run of one benchmark function, its results under `out_dir`.
pub struct RunPlan {
    pub algorithm: Algorithm,
    pub label: &'static str,
    pub function_id: u64,
    pub dim: usize,
    pub iterations: usize,
    pub params: Params,
    pub out_dir: &'static str,
}

/// A grid search over the benchmark functions `function_ids`, its results
/// under `out_dir`.
pub struct GridSweepPlan {
    pub algorithm: Algorithm,
    pub label: &'static str,
    pub function_ids: Vec<u64>,
    pub dim: usize,
    pub iterations: usize,
    pub attempts: usize,
    pub axis_a: Axis,
    pub axis_b: Axis,
    pub base: Params,
    pub out_dir: &'static str,
}

/// `p` holds exactly the given settings and no other.
pub open spec fn params_are(p: Params, s: Seq<(ParamName, ParamValue)>) -> bool {
    &&& p.wf()
    &&& forall|n: ParamName| #[trigger] p.get_spec(n) == crate::params::param_lookup(s, n)
}

pub open spec fn decimals(v: Seq<i64>) -> Seq<ParamValue> {
    v.map_values(|x: i64| ParamValue::Decimal(x))
}

pub open spec fn pso_settings() -> Seq<(ParamName, ParamValue)> {
    seq![
        (ParamName::W, ParamValue::Decimal(80)),
        (ParamName::PhiP, ParamValue::Decimal(100)),
        (ParamName::PhiG, ParamValue::Decimal(100)),
        (ParamName::ParticleCount, ParamValue::Int(50)),
    ]
}

pub open spec fn gsa_settings() -> Seq<(ParamName, ParamValue)> {
    seq![
        (ParamName::G0, ParamValue::Decimal(10000)),
        (ParamName::Alpha, ParamValue::Decimal(2000)),
        (ParamName::ParticleCount, ParamValue::Int(50)),
    ]
}

pub open spec fn tiled_gsa_settings() -> Seq<(ParamName, ParamValue)> {
    gsa_settings().push((ParamName::TilesPerAxis, ParamValue::Int(4)))
}

pub open spec fn pso_grid_base_settings() -> Seq<(ParamName, ParamValue)> {
    seq![(ParamName::W, ParamValue::Decimal(80)), (ParamName::ParticleCount, ParamValue::Int(30))]
}

pub open spec fn gsa_grid_base_settings() -> Seq<(ParamName, ParamValue)> {
    seq![(ParamName::ParticleCount, ParamValue::Int(30))]
}

/// -4.00 to 4.00 in steps of one.
pub open spec fn phi_options() -> Seq<i64> {
    seq![-400i64, -300i64, -200i64, -100i64, 0i64, 100i64, 200i64, 300i64, 400i64]
}

pub open spec fn g0_options() -> Seq<i64> {
    seq![1000i64, 5000i64, 10000i64, 50000i64, 100000i64, 500000i64]
}

pub open spec fn alpha_options() -> Seq<i64> {
    seq![100i64, 200i64, 500i64, 1000i64, 2000i64, 5000i64, 10000i64]
}

/// Builds a parameter set from a list of settings with distinct names.
fn params_of(s: Vec<(ParamName, ParamValue)>) -> (r: Params)
    requires
        forall|i: int, j: int| 0 <= i < j < s@.len() ==> #[trigger] s@[i].0 != #[trigger] s@[j].0,
    ensures
        params_are(r, s@),
{
    let mut r = Params::new();
    let mut k: usize = 0;
    while k < s.len()
        invariant
            0 <= k <= s@.len(),
            forall|i: int, j: int| 0 <= i < j < s@.len() ==> #[trigger] s@[i].0 != #[trigger] s@[j].0,
            r.wf(),
            forall|n: ParamName| #[trigger] r.get_spec(n) == crate::params::param_lookup(s@.subrange(0, k as int), n),
        decreases s@.len() - k,
    {
        proof {
            lemma_lookup_extend(s@, k as int);
        }
        r.set(s[k].0, s[k].1);
        k += 1;
    }
    proof {
        assert(s@.subrange(0, s@.len() as int) =~= s@);
    }
    r
}

/// Looking up in the first `k + 1` settings, where names are distinct.
proof fn lemma_lookup_extend(s: Seq<(ParamName, ParamValue)>, k: int)
    requires
        0 <= k < s.len(),
        forall|i: int, j: int| 0 <= i < j < s.len() ==> #[trigger] s[i].0 != #[trigger] s[j].0,
    ensures
        forall|n: ParamName| #[trigger] crate::params::param_lookup(s.subrange(0, k + 1), n) == if n == s[k].0 {
            Some(s[k].1)
        } else {
            crate::params::param_lookup(s.subrange(0, k), n)
        },
    decreases k,
{
    let a = s.subrange(0, k + 1);
    let b = s.subrange(0, k);
    if k > 0 {
        lemma_lookup_extend(s.drop_first(), k - 1);
        assert(a.drop_first() =~= s.drop_first().subrange(0, k));
        assert(b.drop_first() =~= s.drop_first().subrange(0, k - 1));
        assert forall|n: ParamName| #[trigger] crate::params::param_lookup(a, n) == if n == s[k].0 {
            Some(s[k].1)
        } else {
            crate::params::param_lookup(b, n)
        } by {
            assert(a[0] == s[0]);
            assert(b[0] == s[0]);
            assert(s.drop_first()[k - 1] == s[k]);
            assert(s[0].0 != s[k].0);
            assert(crate::params::param_lookup(a, n) == if a[0].0 == n { Some(a[0].1) } else { crate::params::param_lookup(a.drop_first(), n) });
            assert(crate::params::param_lookup(b, n) == if b[0].0 == n { Some(b[0].1) } else { crate::params::param_lookup(b.drop_first(), n) });
        }
    } else {
        assert forall|n: ParamName| #[trigger] crate::params::param_lookup(a, n) == if n == s[k].0 {
            Some(s[k].1)
        } else {
            crate::params::param_lookup(b, n)
        } by {
            assert(a[0] == s[0]);
            assert(a.drop_first().len() == 0);
            assert(b.len() == 0);
            assert(crate::params::param_lookup(a.drop_first(), n) is None);
            assert(crate::params::param_lookup(a, n) == if a[0].0 == n { Some(a[0].1) } else { crate::params::param_lookup(a.drop_first(), n) });
        }
    }
}

/// Decimal values from their hundredths.
fn decimal_values(v: Vec<i64>) -> (r: Vec<ParamValue>)
    ensures
        r@ == decimals(v@),
{
    let mut r: Vec<ParamValue> = Vec::new();
    let mut k: usize = 0;
    while k < v.len()
        invariant
            0 <= k <= v@.len(),
            r@ == decimals(v@.subrange(0, k as int)),
        decreases v@.len() - k,
    {
        r.push(ParamValue::Decimal(v[k]));
        k += 1;
        proof {
            assert(r@ =~= decimals(v@.subrange(0, k as int)));
        }
    }
    proof {
        assert(v@.subrange(0, v@.len() as int) =~= v@);
    }
    r
}


/// The default PSO settings: w 0.80, phi_p 1.00, phi_g 1.00, 50 particles.
pub fn pso_params() -> (r: Params)
    ensures
        params_are(r, pso_settings()),
{
    let s = vec![
        (ParamName::W, ParamValue::Decimal(80)),
        (ParamName::PhiP, ParamValue::Decimal(100)),
        (ParamName::PhiG, ParamValue::Decimal(100)),
        (ParamName::ParticleCount, ParamValue::Int(50)),
    ];
    proof {
        assert(s@ =~= pso_settings());
    }
    params_of(s)
}

/// The default GSA settings: g0 100.00, alpha 20.00, 50 particles.
pub fn gsa_params() -> (r: Params)
    ensures
        params_are(r, gsa_settings()),
{
    let s = vec![
        (ParamName::G0, ParamValue::Decimal(10000)),
        (ParamName::Alpha, ParamValue::Decimal(2000)),
        (ParamName::ParticleCount, ParamValue::Int(50)),
    ];
    proof {
        assert(s@ =~= gsa_settings());
    }
    params_of(s)
}

/// The default tiled GSA settings: those of GSA, with 4 tiles per axis.
pub fn tiled_gsa_params() -> (r: Params)
    ensures
        params_are(r, tiled_gsa_settings()),
{
    let s = vec![
        (ParamName::G0, ParamValue::Decimal(10000)),
        (ParamName::Alpha, ParamValue::Decimal(2000)),
        (ParamName::ParticleCount, ParamValue::Int(50)),
        (ParamName::TilesPerAxis, ParamValue::Int(4)),
    ];
    proof {
        assert(s@ =~= tiled_gsa_settings());
    }
    params_of(s)
}

/// The fixed settings of a PSO grid search: w 0.80, 30 particles.
pub fn pso_grid_base_params() -> (r: Params)
    ensures
        params_are(r, pso_grid_base_settings()),
{
    let s = vec![(ParamName::W, ParamValue::Decimal(80)), (ParamName::ParticleCount, ParamValue::Int(30))];
    proof {
        assert(s@ =~= pso_grid_base_settings());
    }
    params_of(s)
}

/// The fixed settings of a GSA grid search: 30 particles.
pub fn gsa_grid_base_params() -> (r: Params)
    ensures
        params_are(r, gsa_grid_base_settings()),
{
    let s = vec![(ParamName::ParticleCount, ParamValue::Int(30))];
    proof {
        assert(s@ =~= gsa_grid_base_settings());
    }
    params_of(s)
}

/// An axis of a PSO grid search over `name`: -4.00 to 4.00 in steps of one.
pub fn phi_axis(name: ParamName) -> (r: Axis)
    ensures
        r.name == name,
        r.values@ == decimals(phi_options()),
{
    let v = vec![-400i64, -300, -200, -100, 0, 100, 200, 300, 400];
    proof {
        assert(v@ =~= phi_options());
    }
    Axis { name, values: decimal_values(v) }
}

/// The g0 axis of a GSA grid search.
pub fn g0_axis() -> (r: Axis)
    ensures
        r.name == ParamName::G0,
        r.values@ == decimals(g0_options()),
{
    let v = vec![1000i64, 5000, 10000, 50000, 100000, 500000];
    proof {
        assert(v@ =~= g0_options());
    }
    Axis { name: ParamName::G0, values: decimal_values(v) }
}

/// The alpha axis of a GSA grid search.
pub fn alpha_axis() -> (r: Axis)
    ensures
        r.name == ParamName::Alpha,
        r.values@ == decimals(alpha_options()),
{
    let v = vec![100i64, 200, 500, 1000, 2000, 5000, 10000];
    proof {
        assert(v@ =~= alpha_options());
    }
    Axis { name: ParamName::Alpha, values: decimal_values(v) }
}

} // verus!
