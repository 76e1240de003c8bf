use pendulum::fixed::FX_MAX;
use pendulum::simple_pendulum::{SimplePendulum, SimpleState};
use pendulum::trig::PI_FX;

const SCALE_F: f64 = 1.0e6;

fn energy(state: &SimpleState) -> f64 {
    let v = state.velocity as f64 / SCALE_F;
    let th = state.angle as f64 / SCALE_F;
    let ratio = (state.gravity as f64) / (state.length as f64);
    v * v / 2.0 + ratio * th.cos()
}

#[test]
fn scenario_first_step_acceleration() {
    // angle = -1.2 * pi, gravity = 0.5, length = 200, no damping: after one
    // step the acceleration is (0.5 / 200) * sin(-1.2 * pi).
    let mut sim = SimplePendulum::new(200_000_000, 500_000, 0, -3_769_911);
    assert!(sim.step().is_ok());
    assert_eq!(sim.state.acceleration, 1_469);
    let want = (0.5 / 200.0) * f64::sin(-1.2 * std::f64::consts::PI);
    let got = sim.state.acceleration as f64 / SCALE_F;
    assert!((got - want).abs() <= 3.0e-6);
    // Semi-implicit Euler: the velocity picks up exactly the acceleration,
    // the angle exactly the updated velocity.
    assert_eq!(sim.state.velocity, 1_469);
    assert_eq!(sim.state.angle, -3_769_911 + 1_469);
}

#[test]
fn energy_stays_in_a_band_without_damping() {
    // Swinging half a radian around the hanging equilibrium at pi: the
    // mechanical energy of the discrete trajectory stays within a narrow
    // band of its initial value over a thousand steps.
    let mut sim = SimplePendulum::new(200_000_000, 500_000, 0, PI_FX + 500_000);
    let e0 = energy(&sim.state);
    for _ in 0..1000 {
        assert!(sim.step().is_ok());
        let e = energy(&sim.state);
        assert!((e - e0).abs() <= 5.0e-5, "energy drifted: {} vs {}", e, e0);
    }
}

#[test]
fn damping_decays_the_swing_envelope() {
    // With a damping coefficient in (0, 0.5], the swing around the
    // equilibrium at pi dies down: the envelope late in the run is far
    // below the early envelope.
    let mut sim = SimplePendulum::new(200_000_000, 500_000, 200_000, PI_FX + 1_000_000);
    let mut early: i64 = 0;
    let mut late: i64 = 0;
    for i in 0..2000 {
        assert!(sim.step().is_ok());
        let dev = (sim.state.angle - PI_FX).abs();
        if i < 200 {
            early = early.max(dev);
        }
        if i >= 1800 {
            late = late.max(dev);
        }
    }
    assert!(late * 4 < early, "no decay: early {} late {}", early, late);
    assert!(late < 200_000, "late envelope too wide: {}", late);
}

#[test]
fn history_is_bounded_and_ends_with_latest_snapshot() {
    let mut sim = SimplePendulum::new(200_000_000, 500_000, 0, 1_000_000);
    let cap = sim.history.capacity();
    assert_eq!(cap, 125);
    assert_eq!(sim.history.len(), 0);
    for _ in 0..300 {
        assert!(sim.step().is_ok());
        assert!(sim.history.len() <= cap);
        let last = *sim.history.get(sim.history.len() - 1);
        assert_eq!(last, sim.snapshot());
    }
    assert_eq!(sim.history.len(), cap);
}

#[test]
fn identical_drivers_stay_identical() {
    let mut a = SimplePendulum::new(200_000_000, 500_000, 100_000, 2_500_000);
    let mut b = SimplePendulum::new(200_000_000, 500_000, 100_000, 2_500_000);
    for _ in 0..500 {
        let ra = a.step();
        let rb = b.step();
        assert_eq!(ra.is_ok(), rb.is_ok());
        assert_eq!(a.state, b.state);
        assert_eq!(a.snapshot(), b.snapshot());
    }
}

#[test]
fn zero_length_fails_fast_and_leaves_state() {
    let mut sim = SimplePendulum::new(0, 500_000, 0, 1_000_000);
    let before = sim.state;
    assert!(sim.step().is_err());
    assert_eq!(sim.state, before);
    assert_eq!(sim.history.len(), 0);
}

#[test]
fn out_of_range_intermediate_fails_fast() {
    // A velocity at the edge of the representable range overflows the
    // damping product; the step reports the degenerate configuration.
    let state = SimpleState {
        length: 200_000_000,
        gravity: 500_000,
        damping: 200_000,
        angle: 1_000_000,
        velocity: FX_MAX,
        acceleration: 0,
    };
    assert!(state.integrate().is_err());
}

#[test]
fn parameters_are_live_tunable() {
    let mut sim = SimplePendulum::new(200_000_000, 500_000, 0, PI_FX + 500_000);
    for _ in 0..50 {
        assert!(sim.step().is_ok());
    }
    sim.set_gravity(800_000);
    sim.set_length(150_000_000);
    sim.set_damping(50_000);
    assert_eq!(sim.state.gravity, 800_000);
    assert_eq!(sim.state.length, 150_000_000);
    assert_eq!(sim.state.damping, 50_000);
    let angle_kept = sim.state.angle;
    let velocity_kept = sim.state.velocity;
    // The dynamic state survives the parameter writes, and stepping goes on.
    assert_eq!(sim.state.angle, angle_kept);
    assert_eq!(sim.state.velocity, velocity_kept);
    for _ in 0..50 {
        assert!(sim.step().is_ok());
    }
}
