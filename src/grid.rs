use vstd::prelude::*;
use crate::params::{ParamName, ParamValue, Params};

verus! {

/// One axis of a grid search: a parameter and its candidate values.
pub struct Axis {
    pub name: ParamName,
    pub values: Vec<ParamValue>,
}

/// One run of a grid search: the index of the value taken on each axis, and
/// which repetition of that configuration it is.
#[derive(PartialEq, Eq, Structural, Clone, Copy, Debug)]
pub struct GridRun {
    pub a: usize,
    pub b: usize,
    pub attempt: usize,
}

/// `x` comes before `y`: by first axis, then second axis, then attempt.
pub open spec fn run_before(x: GridRun, y: GridRun) -> bool {
    x.a < y.a || (x.a == y.a && (x.b < y.b || (x.b == y.b && x.attempt < y.attempt)))
}

pub open spec fn run_in_grid(x: GridRun, p: nat, q: nat, attempts: nat) -> bool {
    x.a < p && x.b < q && x.attempt < attempts
}

/// Every run of a grid search over `p` values on the first axis and `q` on the
/// second, each configuration repeated `attempts` times, in order.
pub open spec fn is_grid_schedule(r: Seq<GridRun>, p: nat, q: nat, attempts: nat) -> bool {
    &&& r.len() == p * q * attempts
    &&& forall|k: int| 0 <= k < r.len() ==> run_in_grid(#[trigger] r[k], p, q, attempts)
    &&& forall|x: GridRun| run_in_grid(x, p, q, attempts) ==> #[trigger] r.contains(x)
    &&& forall|m: int, n: int| 0 <= m < n < r.len() ==> run_before(#[trigger] r[m], #[trigger] r[n])
}

/// The runs of a grid search, in the order in which they are made.
pub fn grid_runs(p: usize, q: usize, attempts: usize) -> (r: Vec<GridRun>)
    ensures
        is_grid_schedule(r@, p as nat, q as nat, attempts as nat),
{
    let mut r: Vec<GridRun> = Vec::new();
    let mut i: usize = 0;
    while i < p
        invariant
            0 <= i <= p,
            r@.len() == i * q * attempts,
            forall|k: int| 0 <= k < r@.len() ==> run_in_grid(#[trigger] r@[k], p as nat, q as nat, attempts as nat),
            forall|k: int| 0 <= k < r@.len() ==> (#[trigger] r@[k]).a < i,
            forall|m: int, n: int| 0 <= m < n < r@.len() ==> run_before(#[trigger] r@[m], #[trigger] r@[n]),
            forall|x: GridRun| run_in_grid(x, p as nat, q as nat, attempts as nat) && x.a < i ==> #[trigger] r@.contains(x),
        decreases p - i,
    {
        let mut j: usize = 0;
        while j < q
            invariant
                0 <= i < p,
                0 <= j <= q,
                r@.len() == (i * q + j) * attempts,
                forall|k: int| 0 <= k < r@.len() ==> run_in_grid(#[trigger] r@[k], p as nat, q as nat, attempts as nat),
                forall|k: int| 0 <= k < r@.len() ==> (#[trigger] r@[k]).a < i || (r@[k].a == i && r@[k].b < j),
                forall|m: int, n: int| 0 <= m < n < r@.len() ==> run_before(#[trigger] r@[m], #[trigger] r@[n]),
                forall|x: GridRun| run_in_grid(x, p as nat, q as nat, attempts as nat) && (x.a < i || (x.a == i && x.b < j)) ==> #[trigger] r@.contains(x),
            decreases q - j,
        {
            let mut t: usize = 0;
            while t < attempts
                invariant
                    0 <= i < p,
                    0 <= j < q,
                    0 <= t <= attempts,
                    r@.len() == (i * q + j) * attempts + t,
                    forall|k: int| 0 <= k < r@.len() ==> run_in_grid(#[trigger] r@[k], p as nat, q as nat, attempts as nat),
                    forall|k: int| 0 <= k < r@.len() ==> (#[trigger] r@[k]).a < i || (r@[k].a == i && (r@[k].b < j || (r@[k].b == j && r@[k].attempt < t))),
                    forall|m: int, n: int| 0 <= m < n < r@.len() ==> run_before(#[trigger] r@[m], #[trigger] r@[n]),
                    forall|x: GridRun| run_in_grid(x, p as nat, q as nat, attempts as nat) && (x.a < i || (x.a == i && (x.b < j || (x.b == j && x.attempt < t)))) ==> #[trigger] r@.contains(x),
                decreases attempts - t,
            {
                let run = GridRun { a: i, b: j, attempt: t };
                let ghost before = r@;
                r.push(run);
                proof {
                    assert(r@[before.len() as int] == run);
                    assert forall|k: int| 0 <= k < before.len() implies #[trigger] r@[k] == before[k] by {}
                    assert forall|x: GridRun| run_in_grid(x, p as nat, q as nat, attempts as nat) && (x.a < i || (x.a == i && (x.b < j || (x.b == j && x.attempt < t + 1)))) implies #[trigger] r@.contains(x) by {
                        if x == run {
                            assert(r@[before.len() as int] == x);
                        } else {
                            assert(before.contains(x));
                            let m = choose|m: int| 0 <= m < before.len() && before[m] == x;
                            assert(r@[m] == x);
                        }
                    }
                }
                t += 1;
            }
            proof {
                assert((i * q + j) * attempts + attempts == (i * q + (j + 1)) * attempts) by (nonlinear_arith);
            }
            j += 1;
        }
        proof {
            assert((i * q + q) * attempts == (i + 1) * q * attempts) by (nonlinear_arith);
        }
        i += 1;
    }
    r
}

/// The configuration of a grid point: `base` with the two axes' parameters
/// set to their `i`-th and `j`-th values.
pub fn grid_config(base: &Params, axis_a: &Axis, axis_b: &Axis, i: usize, j: usize) -> (r: Params)
    requires
        base.wf(),
        i < axis_a.values@.len(),
        j < axis_b.values@.len(),
    ensures
        r.wf(),
        forall|n: ParamName| #[trigger] r.get_spec(n) == if n == axis_b.name {
            Some(axis_b.values@[j as int])
        } else if n == axis_a.name {
            Some(axis_a.values@[i as int])
        } else {
            base.get_spec(n)
        },
{
    let mut r = base.copy();
    r.set(axis_a.name, axis_a.values[i]);
    r.set(axis_b.name, axis_b.values[j]);
    r
}

/// Grid search coverage: a schedule over `p` and `q` values holds `p * q`
/// configurations, each run exactly `attempts` times.
pub proof fn law_grid_coverage(r: Seq<GridRun>, p: nat, q: nat, attempts: nat, i: usize, j: usize, t: usize)
    requires
        is_grid_schedule(r, p, q, attempts),
        run_in_grid(GridRun { a: i, b: j, attempt: t }, p, q, attempts),
    ensures
        r.len() == p * q * attempts,
        exists|k: int| 0 <= k < r.len() && r[k] == (GridRun { a: i, b: j, attempt: t }),
        forall|m: int, n: int| 0 <= m < n < r.len() ==> #[trigger] r[m] != #[trigger] r[n],
{
    let x = GridRun { a: i, b: j, attempt: t };
    assert(r.contains(x));
}

} // verus!
