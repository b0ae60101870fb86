use process_lib::base::{Node, Point, Process, ProcessIntoIterator, Trajectory};
use process_lib::bernoulli::Bernoulli;
use process_lib::brownian::GeometricBrownianMotion;
use process_lib::poisson::Poisson;
use process_lib::random::{RandomSource, SeededRng};
use process_lib::rwalk::RandomWalk1D;

/// A scripted randomness source: replays fixed coin flips and bounded
/// draws, for deterministic tests.
struct Script {
    coins: Vec<bool>,
    draws: Vec<u32>,
    raws: Vec<u32>,
    ci: usize,
    di: usize,
    ri: usize,
}

impl Script {
    fn new(coins: Vec<bool>, draws: Vec<u32>, raws: Vec<u32>) -> Script {
        Script { coins, draws, raws, ci: 0, di: 0, ri: 0 }
    }
}

impl RandomSource for Script {
    fn coin(&mut self) -> bool {
        let v = self.coins[self.ci % self.coins.len()];
        self.ci += 1;
        v
    }

    fn below(&mut self, n: u32) -> u32 {
        let v = self.draws[self.di % self.draws.len()];
        self.di += 1;
        v % n
    }

    fn raw32(&mut self) -> u32 {
        let v = self.raws[self.ri % self.raws.len()];
        self.ri += 1;
        v
    }
}

fn pt(x: f32, y: f32) -> Point {
    Point { x: x.to_bits(), y: y.to_bits() }
}

fn xs(points: &[Point]) -> Vec<f32> {
    points.iter().map(|p| f32::from_bits(p.x)).collect()
}

fn ys(points: &[Point]) -> Vec<f32> {
    points.iter().map(|p| f32::from_bits(p.y)).collect()
}

#[test]
fn rwalk_three_steps_scripted() {
    let script = Script::new(vec![true, false, true], vec![0], vec![0]);
    let mut m = RandomWalk1D::new(pt(0.0, 0.0), 1.0f32.to_bits(), 3, script);
    m.generate();
    assert_eq!(xs(&m.trajectory.points), vec![1.0, 2.0, 3.0]);
    assert_eq!(ys(&m.trajectory.points), vec![1.0, 0.0, 1.0]);
}

#[test]
fn rwalk_seeded_step_relation() {
    let mut m = RandomWalk1D::new(pt(2.0, -1.0), 0.5f32.to_bits(), 10, SeededRng::from_seed(7));
    m.generate();
    let points = &m.trajectory.points;
    assert_eq!(points.len(), 10);
    let mut prev = (2.0f32, -1.0f32);
    for p in points {
        let x = f32::from_bits(p.x);
        let y = f32::from_bits(p.y);
        assert_eq!(x, prev.0 + 0.5);
        assert!(y == prev.1 + 0.5 || y == prev.1 - 0.5);
        prev = (x, y);
    }
}

#[test]
fn rwalk_zero_steps_generates_nothing() {
    let mut m = RandomWalk1D::new(pt(0.0, 0.0), 1.0f32.to_bits(), 0, SeededRng::from_seed(1));
    m.generate();
    assert_eq!(m.trajectory.points.len(), 0);
}

#[test]
fn rwalk_generate_again_appends_nothing() {
    let mut m = RandomWalk1D::new(pt(0.0, 0.0), 1.0f32.to_bits(), 4, SeededRng::from_seed(3));
    m.generate();
    let before = m.trajectory.points.clone();
    m.generate();
    assert_eq!(m.trajectory.points, before);
}

#[test]
fn rwalk_reset_then_iteration_is_empty() {
    let mut m = RandomWalk1D::new(pt(0.0, 0.0), 1.0f32.to_bits(), 5, SeededRng::from_seed(9));
    m.generate();
    assert_eq!(m.trajectory.points.len(), 5);
    m.reset(false);
    let mut it = ProcessIntoIterator::into_iter(&mut m);
    assert_eq!(it.next(), None);
    // Without rearming, the budget stays spent: nothing more is generated.
    m.generate();
    assert_eq!(m.trajectory.points.len(), 0);
}

#[test]
fn rwalk_reset_rearmed_generates_again() {
    let mut m = RandomWalk1D::new(pt(0.0, 0.0), 1.0f32.to_bits(), 5, SeededRng::from_seed(9));
    m.generate();
    m.reset(true);
    assert_eq!(m.trajectory.points.len(), 0);
    m.generate();
    assert_eq!(m.trajectory.points.len(), 5);
}

#[test]
fn rwalk_seeded_runs_are_deterministic() {
    let mut a = RandomWalk1D::new(pt(0.0, 0.0), 1.0f32.to_bits(), 8, SeededRng::from_seed(42));
    let mut b = RandomWalk1D::new(pt(0.0, 0.0), 1.0f32.to_bits(), 8, SeededRng::from_seed(42));
    a.generate();
    b.generate();
    assert_eq!(a.trajectory.points, b.trajectory.points);
}

#[test]
fn rwalk_single_steps_match_generate_shape() {
    let mut m = RandomWalk1D::new(pt(0.0, 0.0), 2.0f32.to_bits(), 2, SeededRng::from_seed(5));
    m.generate_single();
    assert_eq!(m.trajectory.points.len(), 1);
    m.generate_single();
    assert_eq!(m.trajectory.points.len(), 2);
    assert_eq!(xs(&m.trajectory.points), vec![2.0, 4.0]);
}

#[test]
fn bernoulli_scripted_first_and_later_points() {
    let script = Script::new(vec![false, true, false, false], vec![0], vec![0]);
    let mut m = Bernoulli::new(pt(0.0, 0.0), pt(1.0, 2.0), 4, script);
    m.generate();
    // The first point sits at initial.x and moves down by step.y; later
    // points advance x by step.x and are a success or stay at initial.y.
    assert_eq!(xs(&m.trajectory.points), vec![0.0, 1.0, 2.0, 3.0]);
    assert_eq!(ys(&m.trajectory.points), vec![-2.0, 2.0, 0.0, 0.0]);
}

#[test]
fn bernoulli_seeded_outcomes_stay_in_range() {
    let mut m = Bernoulli::new(pt(1.0, 3.0), pt(0.5, 2.0), 20, SeededRng::from_seed(11));
    m.generate();
    let points = &m.trajectory.points;
    assert_eq!(points.len(), 20);
    let first_y = f32::from_bits(points[0].y);
    assert!(first_y == 3.0 + 2.0 || first_y == 3.0 - 2.0);
    assert_eq!(f32::from_bits(points[0].x), 1.0);
    for (i, p) in points.iter().enumerate().skip(1) {
        let y = f32::from_bits(p.y);
        assert!(y == 3.0 + 2.0 || y == 3.0, "entry {i} left the outcome pair");
        let prev_x = f32::from_bits(points[i - 1].x);
        assert_eq!(f32::from_bits(p.x), prev_x + 0.5);
    }
}

#[test]
fn gbm_zero_drift_zero_volatility_is_flat() {
    let mut m = GeometricBrownianMotion::new(
        pt(0.0, 0.0),
        0.0f32.to_bits(),
        0.0f32.to_bits(),
        1.0f32.to_bits(),
        5,
        SeededRng::from_seed(2),
    );
    m.generate();
    assert_eq!(xs(&m.trajectory.points), vec![1.0, 2.0, 3.0, 4.0, 5.0]);
    assert_eq!(ys(&m.trajectory.points), vec![0.0, 0.0, 0.0, 0.0, 0.0]);
}

#[test]
fn gbm_scripted_recurrence_is_exact() {
    // step 4.0 admits draws below floor(sqrt(4.0)) = 2.
    let script = Script::new(vec![false], vec![1, 0, 1], vec![0]);
    let mut m = GeometricBrownianMotion::new(
        pt(0.0, 3.0),
        2.0f32.to_bits(),
        0.5f32.to_bits(),
        4.0f32.to_bits(),
        3,
        script,
    );
    m.generate();
    let y1 = 3.0f32 * 4.0 * 2.0 + 0.5 * 1.0;
    let y2 = y1 * 4.0 * 2.0 + 0.5 * 0.0;
    let y3 = y2 * 4.0 * 2.0 + 0.5 * 1.0;
    assert_eq!(xs(&m.trajectory.points), vec![4.0, 8.0, 12.0]);
    assert_eq!(ys(&m.trajectory.points), vec![y1, y2, y3]);
}

#[test]
fn gbm_seeded_draws_stay_below_the_root_bound() {
    // step 9.0: draws come from [0, 3); with zero drift and unit volatility
    // each y is the drawn integer itself.
    let mut m = GeometricBrownianMotion::new(
        pt(0.0, 0.0),
        0.0f32.to_bits(),
        1.0f32.to_bits(),
        9.0f32.to_bits(),
        40,
        SeededRng::from_seed(13),
    );
    m.generate();
    assert_eq!(m.trajectory.points.len(), 40);
    for p in &m.trajectory.points {
        let y = f32::from_bits(p.y);
        assert!(y == 0.0 || y == 1.0 || y == 2.0, "draw {y} escaped the bound");
    }
}

#[test]
fn gbm_small_step_drops_the_stochastic_term() {
    // step 0.25: floor(sqrt(step)) = 0, so the draw is zero and only the
    // deterministic part remains.
    let mut m = GeometricBrownianMotion::new(
        pt(0.0, 2.0),
        1.0f32.to_bits(),
        7.0f32.to_bits(),
        0.25f32.to_bits(),
        2,
        SeededRng::from_seed(4),
    );
    m.generate();
    let y1 = 2.0f32 * 0.25 * 1.0;
    let y2 = y1 * 0.25 * 1.0;
    assert_eq!(ys(&m.trajectory.points), vec![y1, y2]);
}

#[test]
fn gbm_setters_touch_neither_trajectory_nor_budget() {
    let mut m = GeometricBrownianMotion::new(
        pt(0.0, 0.0),
        0.0f32.to_bits(),
        0.0f32.to_bits(),
        1.0f32.to_bits(),
        4,
        SeededRng::from_seed(6),
    );
    m.generate_single();
    let before = m.trajectory.points.clone();
    m.set_drift(3.0f32.to_bits());
    m.set_volatility(0.5f32.to_bits());
    m.set_step(2.0f32.to_bits());
    assert_eq!(m.trajectory.points, before);
    assert_eq!(m.drift, 3.0f32.to_bits());
    assert_eq!(m.volatility, 0.5f32.to_bits());
    assert_eq!(m.step, 2.0f32.to_bits());
    m.generate();
    // One point was generated before the budget of four was re-inspected.
    assert_eq!(m.trajectory.points.len(), 4);
}

#[test]
fn gbm_count_matches_loop_count() {
    let mut m = GeometricBrownianMotion::new(
        pt(0.0, 1.0),
        1.0f32.to_bits(),
        1.0f32.to_bits(),
        2.0f32.to_bits(),
        7,
        SeededRng::from_seed(8),
    );
    m.generate();
    assert_eq!(m.trajectory.points.len(), 7);
}

#[test]
fn poisson_zero_total_generates_nothing() {
    let mut m = Poisson::new(
        pt(0.0, 5.0),
        1.0f32.to_bits(),
        0.0f32.to_bits(),
        100,
        SeededRng::from_seed(21),
    );
    m.generate();
    assert_eq!(m.trajectory.points.len(), 0);
}

#[test]
fn poisson_arrivals_are_flat_and_advance() {
    let mut m = Poisson::new(
        pt(0.0, 5.0),
        1.0f32.to_bits(),
        6.0f32.to_bits(),
        1000,
        SeededRng::from_seed(22),
    );
    m.generate();
    let points = &m.trajectory.points;
    assert!(!points.is_empty());
    assert!(points.len() < 1000, "the cap should not be the stopping reason here");
    let mut prev_x = 0.0f32;
    for p in points {
        assert_eq!(f32::from_bits(p.y), 5.0);
        let x = f32::from_bits(p.x);
        assert!(x >= prev_x);
        prev_x = x;
    }
    // Generation stopped because the accumulated distance reached the total.
    assert!(f32::from_bits(m.current_dist) >= 6.0);
}

#[test]
fn poisson_cap_bounds_unproductive_gaps() {
    // A zero average makes every gap zero, so the distance never grows and
    // only the event cap stops generation.
    let mut m = Poisson::new(
        pt(0.0, 0.0),
        0.0f32.to_bits(),
        1.0f32.to_bits(),
        17,
        SeededRng::from_seed(23),
    );
    m.generate();
    assert_eq!(m.trajectory.points.len(), 17);
    assert_eq!(f32::from_bits(m.current_dist), 0.0);
}

#[test]
fn poisson_generate_again_after_total_appends_nothing() {
    let mut m = Poisson::new(
        pt(0.0, 0.0),
        2.0f32.to_bits(),
        3.0f32.to_bits(),
        50,
        SeededRng::from_seed(24),
    );
    m.generate();
    let before = m.trajectory.points.clone();
    m.generate();
    assert_eq!(m.trajectory.points, before);
}

#[test]
fn trajectory_push_pop_back_and_reset() {
    let mut t = Trajectory::new();
    assert_eq!(t.len(), 0);
    assert_eq!(t.pop_back(), None);
    assert_eq!(t.back(), None);
    assert_eq!(t.push_back(pt(1.0, 2.0)), 1);
    assert_eq!(t.push_back(pt(3.0, 4.0)), 2);
    assert_eq!(t.back(), Some(pt(3.0, 4.0)));
    assert_eq!(t.pop_back(), Some(pt(3.0, 4.0)));
    assert_eq!(t.len(), 1);
    t.reset();
    assert_eq!(t.len(), 0);
    assert_eq!(t.pop_back(), None);
}

#[test]
fn process_trait_push_and_pop_reach_the_trajectory() {
    let mut m = RandomWalk1D::new(pt(0.0, 0.0), 1.0f32.to_bits(), 2, SeededRng::from_seed(31));
    assert_eq!(m.push_back(pt(9.0, 9.0)), 1);
    assert_eq!(m.pop_back(), Some(pt(9.0, 9.0)));
    assert_eq!(m.pop_back(), None);
}

#[test]
fn iterator_is_a_snapshot_and_restarts_fresh() {
    let mut m = RandomWalk1D::new(pt(0.0, 0.0), 1.0f32.to_bits(), 3, SeededRng::from_seed(32));
    m.generate();
    let generated = m.trajectory.points.clone();
    let mut it = ProcessIntoIterator::into_iter(&mut m);
    assert_eq!(it.next(), Some(generated[0]));
    // Later mutation does not reach the snapshot.
    m.reset(false);
    assert_eq!(it.next(), Some(generated[1]));
    assert_eq!(it.next(), Some(generated[2]));
    assert_eq!(it.next(), None);
    // A fresh iterator restarts from the first entry of the now-empty path.
    let mut it2 = ProcessIntoIterator::into_iter(&mut m);
    assert_eq!(it2.next(), None);
}

#[test]
fn node_wraps_a_point() {
    let n = Node::new(pt(1.5, -2.5));
    assert_eq!(n.current, pt(1.5, -2.5));
}
