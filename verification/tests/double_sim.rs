use pendulum::coords::Polar;
use pendulum::double_pendulum::DoublePendulum;

const SCALE_F: f64 = 1.0e6;

// The reference trajectory computed in floating point from the same
// equations of motion.
fn float_step(s: &mut [f64; 9]) {
    let [th1, th2, l1, l2, m1, m2, v1, v2, g] = *s;
    let u1 = -g * (2.0 * m1 + m2) * th1.sin() - m2 * g * (th1 - 2.0 * th2).sin()
        - 2.0 * (th1 - th2).sin() * m2 * (v2 * v2 * l2 + v1 * v1 * l1 * (th1 - th2).cos());
    let d1 = l1 * (2.0 * m1 + m2 - m2 * (2.0 * th1 - 2.0 * th2).cos());
    let u2 = 2.0 * (th1 - th2).sin()
        * (v1 * v1 * l1 * (m1 + m2) + g * (m1 + m2) * th1.cos()
            + v2 * v2 * l2 * m2 * (th1 - th2).cos());
    let d2 = l2 * (2.0 * m1 + m2 - m2 * (2.0 * th1 - 2.0 * th2).cos());
    let a1 = u1 / d1;
    let a2 = u2 / d2;
    let nv1 = v1 + a1;
    let nv2 = v2 + a2;
    *s = [th1 + nv1, th2 + nv2, l1, l2, m1, m2, nv1, nv2, g];
}

fn default_sim() -> DoublePendulum {
    DoublePendulum::new(
        Polar::new(250_000_000, 1_000_000),
        30_000_000,
        Polar::new(250_000_000, 3_000_000),
        30_000_000,
        300_000,
    )
}

#[test]
fn scenario_symmetric_start() {
    // m1 = m2 = 30, L1 = L2 = 200, g = 1, both angles a quarter turn, no
    // initial velocity. The second arm sees no torque (the overall factor
    // sin(th1 - th2) is exactly zero), so its acceleration is exactly zero
    // and its angle stays put; the first arm accelerates at exactly
    // -60 / 12000 = -0.005.
    let mut sim = DoublePendulum::new(
        Polar::new(200_000_000, 1_570_796),
        30_000_000,
        Polar::new(200_000_000, 1_570_796),
        30_000_000,
        1_000_000,
    );
    assert!(sim.step().is_ok());
    assert_eq!(sim.state.a2, 0);
    assert_eq!(sim.state.v2, 0);
    assert_eq!(sim.state.p2.angle, 1_570_796);
    assert_eq!(sim.state.a1, -5_000);
    let got = sim.state.a1 as f64 / SCALE_F;
    assert!((got - (-0.005)).abs() <= 1.0e-6);
    assert_eq!(sim.state.p1.angle, 1_570_796 - 5_000);
}

#[test]
fn tracks_floating_point_reference() {
    // The fixed-point trajectory follows a floating-point evaluation of
    // the same equations closely over the first ten frames (the system is
    // chaotic, so the horizons beyond that diverge by design).
    let mut sim = default_sim();
    let mut reference: [f64; 9] = [1.0, 3.0, 250.0, 250.0, 30.0, 30.0, 0.0, 0.0, 0.3];
    for i in 0..10 {
        assert!(sim.step().is_ok());
        float_step(&mut reference);
        let th1 = sim.state.p1.angle as f64 / SCALE_F;
        let th2 = sim.state.p2.angle as f64 / SCALE_F;
        assert!((th1 - reference[0]).abs() <= 2.0e-4, "th1 diverged at step {}", i);
        assert!((th2 - reference[1]).abs() <= 2.0e-4, "th2 diverged at step {}", i);
    }
}

#[test]
fn long_run_is_stable_and_history_bounded() {
    let mut sim = default_sim();
    let cap = sim.history.capacity();
    assert_eq!(cap, 125);
    for _ in 0..500 {
        assert!(sim.step().is_ok());
        assert!(sim.history.len() <= cap);
        let last = *sim.history.get(sim.history.len() - 1);
        assert_eq!(last, sim.snapshot());
    }
    assert_eq!(sim.history.len(), cap);
    // Oldest-first order: the stored history ends with the current state.
    let (p1, p2) = sim.snapshot();
    assert_eq!(p1, sim.state.p1);
    assert_eq!(p2, sim.state.p2);
}

#[test]
fn history_keeps_chronological_order_after_eviction() {
    // The buffer holds exactly the last 125 snapshots, oldest first.
    let mut sim = default_sim();
    let mut all: Vec<(Polar, Polar)> = Vec::new();
    for _ in 0..200 {
        assert!(sim.step().is_ok());
        all.push(sim.snapshot());
    }
    let cap = sim.history.capacity();
    assert_eq!(sim.history.len(), cap);
    let offset = all.len() - cap;
    for i in 0..cap {
        assert_eq!(*sim.history.get(i), all[offset + i], "order broken at {}", i);
    }
}

#[test]
fn identical_double_drivers_stay_identical() {
    let mut a = default_sim();
    let mut b = default_sim();
    for _ in 0..300 {
        let ra = a.step();
        let rb = b.step();
        assert_eq!(ra.is_ok(), rb.is_ok());
        assert_eq!(a.state, b.state);
    }
}

#[test]
fn zero_arm_length_fails_fast() {
    let mut sim = DoublePendulum::new(
        Polar::new(0, 1_000_000),
        30_000_000,
        Polar::new(250_000_000, 3_000_000),
        30_000_000,
        300_000,
    );
    let before = sim.state;
    assert!(sim.step().is_err());
    assert_eq!(sim.state, before);
    assert_eq!(sim.history.len(), 0);
}

#[test]
fn double_parameters_are_live_tunable() {
    let mut sim = default_sim();
    for _ in 0..50 {
        assert!(sim.step().is_ok());
    }
    let angle_kept = sim.state.p1.angle;
    let velocity_kept = sim.state.v1;
    sim.set_gravity(500_000);
    sim.set_m1(45_000_000);
    sim.set_m2(20_000_000);
    sim.set_length1(300_000_000);
    sim.set_length2(150_000_000);
    assert_eq!(sim.state.gravity, 500_000);
    assert_eq!(sim.state.m1, 45_000_000);
    assert_eq!(sim.state.m2, 20_000_000);
    assert_eq!(sim.state.p1.length, 300_000_000);
    assert_eq!(sim.state.p2.length, 150_000_000);
    // The dynamic state survives the writes; the run goes on from it.
    assert_eq!(sim.state.p1.angle, angle_kept);
    assert_eq!(sim.state.v1, velocity_kept);
    for _ in 0..50 {
        assert!(sim.step().is_ok());
    }
}
