use swarm_opt::best::BestSoFar;
use swarm_opt::fitness::{bits_of_key, float_eq, is_nan, order_key, position_eq};
use swarm_opt::gsa::{mass_rule, MassRule};
use swarm_opt::iteration::{close_iteration, copy_position, pso_close_iteration};
use swarm_opt::problem::Problem;
use swarm_opt::tiles::{interaction_pairs, tiles_adjacent};
use swarm_opt::trajectory::Trajectory;

fn key(x: f64) -> u64 {
    order_key(x.to_bits())
}

fn pos(xs: &[f64]) -> Vec<u64> {
    xs.iter().map(|x| x.to_bits()).collect()
}

#[test]
fn order_key_follows_float_order() {
    let xs = [-1.0e300, -5.5, -1.0, -1.0e-300, 0.0, 1.0e-300, 0.25, 1.0, 3.0, 1.0e300];
    for w in xs.windows(2) {
        assert!(key(w[0]) < key(w[1]), "{} < {}", w[0], w[1]);
    }
    assert_eq!(key(0.0), key(-0.0));
    assert_eq!(key(2.5), key(2.5));
}

#[test]
fn key_turns_back_into_the_same_double() {
    for x in [-1.0e300, -5.5, -1.0e-300, 1.0e-300, 0.25, 3.0, f64::INFINITY, f64::NEG_INFINITY] {
        assert_eq!(f64::from_bits(bits_of_key(key(x))), x);
    }
    assert_eq!(bits_of_key(key(-0.0)), 0.0f64.to_bits());
    assert_ne!(bits_of_key(key(2.0)), key(2.0));
}

#[test]
fn float_equality_on_bits() {
    assert!(float_eq(0.0f64.to_bits(), (-0.0f64).to_bits()));
    assert!(float_eq(1.5f64.to_bits(), 1.5f64.to_bits()));
    assert!(!float_eq(1.5f64.to_bits(), 1.25f64.to_bits()));
    assert!(!float_eq(f64::NAN.to_bits(), f64::NAN.to_bits()));
    assert!(is_nan(f64::NAN.to_bits()));
    assert!(!is_nan(f64::INFINITY.to_bits()));
    assert!(position_eq(&pos(&[1.0, 0.0]), &pos(&[1.0, -0.0])));
    assert!(!position_eq(&pos(&[1.0, 0.0]), &pos(&[1.0])));
    assert!(!position_eq(&pos(&[1.0, 2.0]), &pos(&[1.0, 3.0])));
}

#[test]
fn memo_second_call_hits_without_counting() {
    let mut p = Problem::new(1, 2);
    assert_eq!(p.function_id(), 1);
    assert_eq!(p.dim(), 2);
    let x = pos(&[1.0, -2.0]);
    assert_eq!(p.cached(&x), None);
    p.record(x.clone(), key(7.0));
    assert_eq!(p.cnt(), 1);
    assert_eq!(p.cached(&x), Some(key(7.0)));
    assert_eq!(p.cached(&x), Some(key(7.0)));
    assert_eq!(p.cnt(), 1);
    let y = pos(&[1.0, -3.0]);
    assert_eq!(p.cached(&y), None);
    p.record(y.clone(), key(9.0));
    assert_eq!(p.cnt(), 2);
    assert_eq!(p.cached(&y), Some(key(9.0)));
    assert_eq!(p.cached(&x), Some(key(7.0)));
}

#[test]
fn memo_treats_zeros_as_equal_and_nan_as_never_seen() {
    let mut p = Problem::new(3, 1);
    p.record(pos(&[0.0]), key(1.0));
    assert_eq!(p.cached(&pos(&[-0.0])), Some(key(1.0)));
    p.record(pos(&[f64::NAN]), key(2.0));
    assert_eq!(p.cached(&pos(&[f64::NAN])), None);
    assert_eq!(p.cnt(), 2);
}

#[test]
fn best_so_far_keeps_earlier_on_ties() {
    let mut b = BestSoFar::new();
    assert_eq!(b.fitness(), None);
    assert!(b.position().is_none());
    assert!(b.offer(pos(&[1.0]), key(4.0)));
    assert!(!b.offer(pos(&[2.0]), key(4.0)));
    assert_eq!(b.position(), Some(&pos(&[1.0])));
    assert!(!b.offer(pos(&[3.0]), key(5.0)));
    assert!(b.offer(pos(&[4.0]), key(-1.0)));
    assert_eq!(b.fitness(), Some(key(-1.0)));
    assert_eq!(b.position(), Some(&pos(&[4.0])));
}

#[test]
fn logged_global_best_never_rises() {
    let mut t = Trajectory::new();
    let rounds = [[5.0, 8.0], [9.0, 6.0], [3.0, 4.0], [7.0, 3.5], [-2.0, 10.0]];
    for r in rounds.iter() {
        let ps = vec![pos(&[r[0]]), pos(&[r[1]])];
        let fs = vec![key(r[0]), key(r[1])];
        close_iteration(&mut t, &ps, &fs);
    }
    let log = t.data().clone();
    assert_eq!(log, vec![key(5.0), key(5.0), key(3.0), key(3.0), key(-2.0)]);
    for w in log.windows(2) {
        assert!(w[1] <= w[0]);
    }
    assert_eq!(t.global_best().position(), Some(&pos(&[-2.0])));
}

#[test]
fn update_global_best_pos_needs_strict_improvement() {
    let mut t = Trajectory::new();
    assert!(t.update_global_best_pos(pos(&[1.0]), key(2.0)));
    assert!(!t.update_global_best_pos(pos(&[5.0]), key(2.0)));
    assert!(t.update_global_best_pos(pos(&[6.0]), key(1.0)));
    t.add_data();
    assert_eq!(t.data(), &vec![key(1.0)]);
    assert_eq!(t.global_best().position(), Some(&pos(&[6.0])));
}

#[test]
fn pso_particle_at_rest_keeps_its_best() {
    // one particle at x = 5 with v = 0, fitness x^2: it does not move
    let mut personal = vec![BestSoFar::new()];
    let mut t = Trajectory::new();
    let ps = vec![pos(&[5.0])];
    let fs = vec![key(25.0)];
    pso_close_iteration(&mut personal, &mut t, &ps, &fs);
    pso_close_iteration(&mut personal, &mut t, &ps, &fs);
    assert_eq!(personal[0].position(), Some(&pos(&[5.0])));
    assert_eq!(personal[0].fitness(), Some(key(25.0)));
    assert_eq!(t.global_best().position(), Some(&pos(&[5.0])));
    assert_eq!(t.data(), &vec![key(25.0), key(25.0)]);
}

#[test]
fn pso_bests_follow_each_particle() {
    let mut personal = vec![BestSoFar::new(), BestSoFar::new()];
    let mut t = Trajectory::new();
    pso_close_iteration(&mut personal, &mut t, &vec![pos(&[1.0]), pos(&[2.0])], &vec![key(1.0), key(4.0)]);
    pso_close_iteration(&mut personal, &mut t, &vec![pos(&[3.0]), pos(&[0.5])], &vec![key(9.0), key(0.25)]);
    assert_eq!(personal[0].position(), Some(&pos(&[1.0])));
    assert_eq!(personal[1].position(), Some(&pos(&[0.5])));
    assert_eq!(t.global_best().fitness(), Some(key(0.25)));
    assert_eq!(t.data(), &vec![key(1.0), key(0.25)]);
}

#[test]
fn copy_position_copies() {
    let a = pos(&[1.0, 2.0, -3.0]);
    assert_eq!(copy_position(&a), a);
}

#[test]
fn equal_fitness_gives_uniform_mass() {
    let f = vec![key(3.0), key(3.0), key(3.0)];
    assert!(matches!(mass_rule(&f), MassRule::Uniform));
    assert!(matches!(mass_rule(&vec![key(-1.0)]), MassRule::Uniform));
}

#[test]
fn distinct_fitness_scales_between_best_and_worst() {
    let f = vec![key(3.0), key(-2.0), key(10.0), key(4.0)];
    match mass_rule(&f) {
        MassRule::Scaled { best, worst } => {
            assert_eq!(best, key(-2.0));
            assert_eq!(worst, key(10.0));
        }
        MassRule::Uniform => panic!("expected scaled masses"),
    }
}

#[test]
fn neighbouring_tiles() {
    assert!(tiles_adjacent(&vec![0, 0], &vec![1, -1]));
    assert!(tiles_adjacent(&vec![2, 2], &vec![2, 2]));
    assert!(!tiles_adjacent(&vec![0, 0], &vec![2, 0]));
    assert!(!tiles_adjacent(&vec![0], &vec![0, 0]));
    assert!(tiles_adjacent(&vec![i64::MIN], &vec![i64::MIN + 1]));
    assert!(!tiles_adjacent(&vec![i64::MIN], &vec![i64::MAX]));
}

#[test]
fn interaction_pairs_within_neighbouring_tiles() {
    let tiles = vec![vec![0, 0], vec![1, 1], vec![3, 0], vec![0, 0]];
    let pairs = interaction_pairs(&tiles);
    assert_eq!(pairs, vec![(0, 1), (0, 3), (1, 0), (1, 3), (3, 0), (3, 1)]);
    assert_eq!(interaction_pairs(&vec![]), vec![]);
    assert_eq!(interaction_pairs(&vec![vec![5]]), vec![]);
}
