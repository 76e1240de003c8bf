//! The single-pendulum integrator and its simulation driver.
//!
//! One bob on a massless arm under gravity, advanced one frame per `step`
//! by semi-implicit Euler: the angular acceleration `(gravity / length) *
//! sin(angle)` is added to the velocity, an optional damping factor
//! `1 - |velocity * (-2) * damping|` scales the velocity, and the updated
//! velocity is added to the angle. The damping factor is taken exactly as
//! stated: for large velocity-damping products it can go negative and
//! invert the velocity's sign rather than merely attenuate it — a
//! deliberate, documented edge of the update rule, which callers avoid
//! by keeping the damping coefficient small.

use vstd::prelude::*;

use crate::coords::Polar;
use crate::coords::COORD_MAX;
use crate::errors::DegenerateConfigurationError;
use crate::fixed::abs_i;
use crate::fixed::fmul;
use crate::fixed::fx_abs;
use crate::fixed::fx_add;
use crate::fixed::fx_div;
use crate::fixed::fx_mul;
use crate::fixed::fx_sub;
use crate::fixed::in_fx;
use crate::fixed::oadd;
use crate::fixed::oabs;
use crate::fixed::odiv;
use crate::fixed::omul;
use crate::fixed::osub;
use crate::fixed::SCALE;
use crate::history::History;
use crate::history::HISTORY_CAPACITY;
use crate::trig::sin_fx;
use crate::trig::sin_spec;

verus! {

/// Minus two, fixed-point.
pub const NEG_TWO_FX: i64 = -2_000_000;

/// The full state of a single pendulum: the constant parameters (arm
/// length, gravity, damping coefficient) and the dynamic state (angle,
/// angular velocity, angular acceleration). The Cartesian position is
/// derived from the angle, never stored.
#[derive(Clone, Copy, Debug, PartialEq, Eq, Structural)]
pub struct SimpleState {
    pub length: i64,
    pub gravity: i64,
    pub damping: i64,
    pub angle: i64,
    pub velocity: i64,
    pub acceleration: i64,
}

impl SimpleState {
    /// Every field representable, and the arm short enough for coordinate
    /// conversion.
    pub open spec fn wf(&self) -> bool {
        &&& in_fx(self.length as int)
        &&& in_fx(self.gravity as int)
        &&& in_fx(self.damping as int)
        &&& in_fx(self.angle as int)
        &&& in_fx(self.velocity as int)
        &&& in_fx(self.acceleration as int)
        &&& abs_i(self.length as int) <= COORD_MAX as int
    }
}

/// The angular acceleration of a step: `(gravity / length) * sin(angle)`.
pub open spec fn accel_c(s: SimpleState) -> Option<int> {
    omul(odiv(Some(s.gravity as int), Some(s.length as int)), Some(sin_spec(s.angle as int)))
}

/// The velocity after a step: the acceleration is added, then, when damping
/// is enabled, the whole is scaled by `1 - |velocity * (-2) * damping|`
/// (the factor computed from the velocity before the step).
pub open spec fn velocity_c(s: SimpleState) -> Option<int> {
    let vsum = oadd(Some(s.velocity as int), accel_c(s));
    if s.damping == 0 {
        vsum
    } else {
        let factor = osub(
            Some(SCALE as int),
            oabs(omul(omul(Some(s.velocity as int), Some(NEG_TWO_FX as int)), Some(s.damping as int))),
        );
        omul(vsum, factor)
    }
}

/// Damping attenuates: as long as the damping factor has not gone
/// negative (the overdamped edge documented above), the velocity that
/// leaves a damped step is no larger in magnitude than the undamped
/// update `velocity + acceleration` it scales — the swing envelope cannot
/// grow through the damping multiplication.
pub proof fn lemma_damping_attenuates(s: SimpleState)
    requires
        s.damping != 0,
        (SCALE as int) - abs_i(
            fmul(fmul(s.velocity as int, NEG_TWO_FX as int), s.damping as int),
        ) >= 0,
    ensures
        velocity_c(s) matches Some(v) ==> (oadd(Some(s.velocity as int), accel_c(s))
            matches Some(u) && abs_i(v) <= abs_i(u)),
{
    if velocity_c(s) is Some {
        match oadd(Some(s.velocity as int), accel_c(s)) {
            Some(u) => {
                let factor = (SCALE as int) - abs_i(
                    fmul(fmul(s.velocity as int, NEG_TWO_FX as int), s.damping as int),
                );
                crate::fixed::lemma_fmul_bound(u, factor, abs_i(u), SCALE as int);
                vstd::arithmetic::div_mod::lemma_div_by_multiple(abs_i(u), SCALE as int);
            },
            None => {},
        }
    }
}

/// The angle after a step: the updated velocity is added to the angle.
pub open spec fn angle_c(s: SimpleState) -> Option<int> {
    oadd(Some(s.angle as int), velocity_c(s))
}

/// One semi-implicit Euler step of the single pendulum. `None` exactly when
/// the arm length is zero or an intermediate value leaves the representable
/// range; parameters are carried over unchanged.
pub open spec fn simple_step(s: SimpleState) -> Option<SimpleState> {
    match (accel_c(s), velocity_c(s), angle_c(s)) {
        (Some(a), Some(v), Some(t)) => Some(
            SimpleState { angle: t as i64, velocity: v as i64, acceleration: a as i64, ..s },
        ),
        _ => None,
    }
}

/// The renderable projection of a state: its arm as a polar vector.
pub open spec fn simple_snapshot_of(s: SimpleState) -> Polar {
    Polar { length: s.length, angle: s.angle }
}

/// The state after `n` steps; a failing step leaves the state as it was
/// (and every later step then fails the same way).
pub open spec fn simple_run(s: SimpleState, n: nat) -> SimpleState
    decreases n,
{
    if n == 0 {
        s
    } else {
        let prev = simple_run(s, (n - 1) as nat);
        match simple_step(prev) {
            Some(next) => next,
            None => prev,
        }
    }
}

/// Determinism: the trajectory is a pure function of the initial state, so
/// two simulations started from identical parameters and stepped the same
/// number of times pass through identical states.
pub proof fn lemma_simple_deterministic(s1: SimpleState, s2: SimpleState, n: nat)
    requires
        s1 == s2,
    ensures
        simple_run(s1, n) == simple_run(s2, n),
{
}

impl SimpleState {
    /// One integration step, leaving `self` untouched: the next state, or
    /// the error when the configuration is degenerate (zero arm length or a
    /// value out of range).
    pub fn integrate(&self) -> (r: Result<SimpleState, DegenerateConfigurationError>)
        requires
            self.wf(),
        ensures
            match r {
                Ok(next) => simple_step(*self) == Some(next) && next.wf(),
                Err(_) => simple_step(*self) is None,
            },
    {
        let sin_a = sin_fx(self.angle);
        let ratio = match fx_div(self.gravity, self.length) {
            Some(v) => v,
            None => {
                return Err(DegenerateConfigurationError);
            },
        };
        let acc = match fx_mul(ratio, sin_a) {
            Some(v) => v,
            None => {
                return Err(DegenerateConfigurationError);
            },
        };
        let vsum = match fx_add(self.velocity, acc) {
            Some(v) => v,
            None => {
                return Err(DegenerateConfigurationError);
            },
        };
        let vel = if self.damping == 0 {
            vsum
        } else {
            let twice = match fx_mul(self.velocity, NEG_TWO_FX) {
                Some(v) => v,
                None => {
                    return Err(DegenerateConfigurationError);
                },
            };
            let prod = match fx_mul(twice, self.damping) {
                Some(v) => v,
                None => {
                    return Err(DegenerateConfigurationError);
                },
            };
            let factor = match fx_sub(SCALE, fx_abs(prod)) {
                Some(v) => v,
                None => {
                    return Err(DegenerateConfigurationError);
                },
            };
            match fx_mul(vsum, factor) {
                Some(v) => v,
                None => {
                    return Err(DegenerateConfigurationError);
                },
            }
        };
        let ang = match fx_add(self.angle, vel) {
            Some(v) => v,
            None => {
                return Err(DegenerateConfigurationError);
            },
        };
        Ok(SimpleState { angle: ang, velocity: vel, acceleration: acc, ..*self })
    }
}

/// The single-pendulum simulation driver: it owns the state and the
/// trajectory history, advances one frame per `step`, and hands the
/// renderer read-only snapshots.
pub struct SimplePendulum {
    pub state: SimpleState,
    pub history: History<Polar>,
}

impl SimplePendulum {
    /// The driver invariant: a well-formed state and a bounded history.
    pub open spec fn wf(&self) -> bool {
        self.state.wf() && self.history.wf()
    }

    /// A driver from initial parameters: the given angle, zero velocity and
    /// acceleration, an empty history.
    pub fn new(length: i64, gravity: i64, damping: i64, angle: i64) -> (r: Self)
        requires
            -COORD_MAX <= length <= COORD_MAX,
            in_fx(gravity as int),
            in_fx(damping as int),
            in_fx(angle as int),
        ensures
            r.wf(),
            r.state == (SimpleState {
                length,
                gravity,
                damping,
                angle,
                velocity: 0,
                acceleration: 0,
            }),
            r.history@ == Seq::<Polar>::empty(),
            r.history.cap() == HISTORY_CAPACITY,
    {
        Self {
            state: SimpleState { length, gravity, damping, angle, velocity: 0, acceleration: 0 },
            history: History::new(HISTORY_CAPACITY),
        }
    }

    /// Advances one frame: integrates, then records the new arm position.
    /// On a degenerate configuration nothing changes and the error is
    /// returned. The history never exceeds its capacity, and after a
    /// successful step its last entry is the snapshot just recorded.
    pub fn step(&mut self) -> (r: Result<(), DegenerateConfigurationError>)
        requires
            old(self).wf(),
        ensures
            final(self).wf(),
            final(self).history.cap() == old(self).history.cap(),
            final(self).history@.len() <= final(self).history.cap(),
            match r {
                Ok(_) => {
                    &&& simple_step(old(self).state) == Some(final(self).state)
                    &&& final(self).history@ == (if old(self).history@.len() < old(
                        self,
                    ).history.cap() {
                        old(self).history@.push(simple_snapshot_of(final(self).state))
                    } else {
                        old(self).history@.subrange(1, old(self).history@.len() as int).push(
                            simple_snapshot_of(final(self).state),
                        )
                    })
                    &&& final(self).history@.last() == simple_snapshot_of(final(self).state)
                },
                Err(_) => simple_step(old(self).state) is None && *final(self) == *old(self),
            },
    {
        match self.state.integrate() {
            Ok(next) => {
                self.state = next;
                self.history.record(Polar::new(self.state.length, self.state.angle));
                Ok(())
            },
            Err(e) => Err(e),
        }
    }

    /// A read-only snapshot of the current arm for the renderer.
    pub fn snapshot(&self) -> (r: Polar)
        ensures
            r == simple_snapshot_of(self.state),
    {
        Polar::new(self.state.length, self.state.angle)
    }

    /// Replaces the gravity parameter between steps.
    pub fn set_gravity(&mut self, gravity: i64)
        requires
            old(self).wf(),
            in_fx(gravity as int),
        ensures
            final(self).wf(),
            final(self).state == (SimpleState { gravity, ..old(self).state }),
            final(self).history == old(self).history,
    {
        self.state.gravity = gravity;
    }

    /// Replaces the arm length between steps.
    pub fn set_length(&mut self, length: i64)
        requires
            old(self).wf(),
            -COORD_MAX <= length <= COORD_MAX,
        ensures
            final(self).wf(),
            final(self).state == (SimpleState { length, ..old(self).state }),
            final(self).history == old(self).history,
    {
        self.state.length = length;
    }

    /// Replaces the damping coefficient between steps.
    pub fn set_damping(&mut self, damping: i64)
        requires
            old(self).wf(),
            in_fx(damping as int),
        ensures
            final(self).wf(),
            final(self).state == (SimpleState { damping, ..old(self).state }),
            final(self).history == old(self).history,
    {
        self.state.damping = damping;
    }
}

} // verus!
