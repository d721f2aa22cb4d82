use swarm_opt::executers::{
    grid_search_gsa, grid_search_pso, grid_search_tiled_gsa, gsa_cec17, pso_cec17, tiled_gsa_cec17,
};
use swarm_opt::experiments::{run_grid_search_gsa, run_grid_search_pso, run_gsa, run_pso, sweep_function_ids};
use swarm_opt::grid::{grid_config, grid_runs, Axis, GridRun};
use swarm_opt::optimizer::{Name, Particles, SwarmRun};
use swarm_opt::params::{digits_of, ParamName, ParamValue, Params};
use swarm_opt::plans::{pso_params, Algorithm};
use swarm_opt::problem::Problem;
use swarm_opt::best::BestSoFar;

fn text(v: ParamValue) -> String {
    String::from_utf8(v.to_text()).unwrap()
}

#[test]
fn values_are_written_with_two_places() {
    assert_eq!(text(ParamValue::Decimal(80)), "0.80");
    assert_eq!(text(ParamValue::Decimal(-400)), "-4.00");
    assert_eq!(text(ParamValue::Decimal(10000)), "100.00");
    assert_eq!(text(ParamValue::Decimal(5)), "0.05");
    assert_eq!(text(ParamValue::Decimal(-5)), "-0.05");
    assert_eq!(text(ParamValue::Decimal(i64::MIN)), "-92233720368547758.08");
    assert_eq!(text(ParamValue::Int(30)), "30");
    assert_eq!(text(ParamValue::Int(-7)), "-7");
    assert_eq!(text(ParamValue::Int(0)), "0");
    assert_eq!(digits_of(1234567890), b"1234567890".to_vec());
}

#[test]
fn params_set_replaces() {
    let mut p = Params::new();
    assert_eq!(p.get(ParamName::W), None);
    p.set(ParamName::W, ParamValue::Decimal(80));
    p.set(ParamName::ParticleCount, ParamValue::Int(30));
    p.set(ParamName::W, ParamValue::Decimal(90));
    assert_eq!(p.get(ParamName::W), Some(ParamValue::Decimal(90)));
    assert_eq!(p.get(ParamName::ParticleCount), Some(ParamValue::Int(30)));
    assert_eq!(p.entries().len(), 2);
    assert_eq!(p.copy().entries(), p.entries());
    assert_eq!(ParamName::PhiP.key(), "phi_p");
}

#[test]
fn grid_runs_cover_every_configuration_attempts_times() {
    let (p, q, attempts) = (3usize, 4usize, 5usize);
    let runs = grid_runs(p, q, attempts);
    assert_eq!(runs.len(), p * q * attempts);
    for i in 0..p {
        for j in 0..q {
            let n = runs.iter().filter(|r| r.a == i && r.b == j).count();
            assert_eq!(n, attempts);
        }
    }
    assert_eq!(runs[0], GridRun { a: 0, b: 0, attempt: 0 });
    assert_eq!(runs[6], GridRun { a: 0, b: 1, attempt: 1 });
    assert!(grid_runs(0, 4, 5).is_empty());
    assert!(grid_runs(2, 2, 0).is_empty());
}

#[test]
fn grid_config_overrides_two_axes() {
    let mut base = Params::new();
    base.set(ParamName::W, ParamValue::Decimal(80));
    base.set(ParamName::PhiP, ParamValue::Decimal(0));
    let a = Axis { name: ParamName::PhiP, values: vec![ParamValue::Decimal(-100), ParamValue::Decimal(100)] };
    let b = Axis { name: ParamName::PhiG, values: vec![ParamValue::Decimal(200)] };
    let c = grid_config(&base, &a, &b, 1, 0);
    assert_eq!(c.get(ParamName::W), Some(ParamValue::Decimal(80)));
    assert_eq!(c.get(ParamName::PhiP), Some(ParamValue::Decimal(100)));
    assert_eq!(c.get(ParamName::PhiG), Some(ParamValue::Decimal(200)));
    assert_eq!(base.get(ParamName::PhiP), Some(ParamValue::Decimal(0)));
}

#[test]
fn suite_plans() {
    let p = pso_cec17(100, 10, 3);
    assert_eq!(p.algorithm, Algorithm::Pso);
    assert_eq!((p.label, p.iterations, p.dim, p.attempts, p.out_root), ("PSO", 100, 10, 3, "data/test"));
    assert_eq!(p.params.get(ParamName::W), Some(ParamValue::Decimal(80)));
    assert_eq!(p.params.get(ParamName::ParticleCount), Some(ParamValue::Int(50)));
    let g = gsa_cec17(10, 2, 1);
    assert_eq!((g.algorithm, g.label), (Algorithm::Gsa, "GSA"));
    assert_eq!(g.params.get(ParamName::G0), Some(ParamValue::Decimal(10000)));
    assert_eq!(g.params.get(ParamName::Alpha), Some(ParamValue::Decimal(2000)));
    let t = tiled_gsa_cec17(10, 2, 1);
    assert_eq!((t.algorithm, t.label), (Algorithm::TiledGsa, "TiledGSA"));
    assert_eq!(t.params.get(ParamName::TilesPerAxis), Some(ParamValue::Int(4)));
    assert_eq!(Algorithm::TiledGsa.dir_name(), "tiled_gsa");
}

#[test]
fn suite_grid_plans() {
    let p = grid_search_pso(50, 10, 2);
    assert_eq!((p.label, p.out_root, p.attempts), ("PSO", "data/grid_search", 2));
    assert_eq!(p.axis_a.name, ParamName::PhiP);
    assert_eq!(p.axis_b.name, ParamName::PhiG);
    assert_eq!(p.axis_a.values.len(), 9);
    assert_eq!(p.axis_a.values[0], ParamValue::Decimal(-400));
    assert_eq!(p.base.get(ParamName::ParticleCount), Some(ParamValue::Int(30)));
    let g = grid_search_gsa(50, 10, 2);
    assert_eq!(g.axis_a.values.len() * g.axis_b.values.len(), 42);
    let t = grid_search_tiled_gsa(50, 10, 2);
    assert_eq!((t.algorithm, t.label), (Algorithm::TiledGsa, "GSA"));
}

#[test]
fn experiment_plans() {
    let r = run_pso();
    assert_eq!((r.function_id, r.dim, r.iterations, r.out_dir), (1, 10, 1000, "data/test/pso"));
    let g = run_gsa();
    assert_eq!((g.function_id, g.dim, g.out_dir), (1, 30, "data/test/gsa"));
    let ids = sweep_function_ids();
    assert_eq!(ids.len(), 29);
    assert!(!ids.contains(&2));
    assert_eq!((ids[0], ids[1], ids[28]), (1, 3, 30));
    let s = run_grid_search_gsa();
    assert_eq!((s.attempts, s.dim, s.out_dir), (5, 100, "data/gsa_100/grid_search"));
    let s = run_grid_search_pso();
    assert_eq!((s.function_ids.len(), s.out_dir), (29, "data/pso_100/grid_search"));
}

#[test]
fn swarm_run_state() {
    let mut run: SwarmRun<BestSoFar> = SwarmRun::new("PSO".to_string(), Problem::new(1, 1), pso_params());
    assert_eq!(run.name(), "PSO");
    run.add_particle();
    assert_eq!(run.particles().len(), 1);
    run.record_evaluation(vec![5.0f64.to_bits()], 25);
    assert_eq!(run.problem().cnt(), 1);
    run.close_pso_iteration(&vec![vec![5.0f64.to_bits()]], &vec![25]);
    assert_eq!(run.trajectory().data(), &vec![25]);
    assert_eq!(run.particles_mut().len(), 1);
}
