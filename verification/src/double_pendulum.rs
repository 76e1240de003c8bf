//! The double-pendulum integrator and its simulation driver.
//!
//! Two point masses on massless arms hinged in series under uniform
//! gravity. Each step computes both angular accelerations from the standard
//! Lagrangian equations of motion of the coupled system, then advances by
//! semi-implicit Euler with a unit time step: velocities first, then
//! angles, with no damping. The shared denominator factor
//! `2*m1 + m2 - m2*cos(2*(th1 - th2))` can reach zero for degenerate mass
//! configurations; such a step fails fast and leaves the state untouched.
//! Masses, arm lengths and gravity are live-tunable between steps.

use vstd::prelude::*;

use crate::coords::Polar;
use crate::coords::COORD_MAX;
use crate::errors::DegenerateConfigurationError;
use crate::fixed::fx_add;
use crate::fixed::fx_div;
use crate::fixed::fx_mul;
use crate::fixed::fx_neg;
use crate::fixed::fx_sub;
use crate::fixed::in_fx;
use crate::fixed::oadd;
use crate::fixed::odiv;
use crate::fixed::omul;
use crate::fixed::oneg;
use crate::fixed::osub;
use crate::history::History;
use crate::history::HISTORY_CAPACITY;
use crate::trig::cos_fx;
use crate::trig::ocos;
use crate::trig::osin;
use crate::trig::sin_fx;

verus! {

/// The full state of a double pendulum: two polar arms, their masses,
/// angular velocities and accelerations, and the shared gravity. The arm
/// lengths are tunable parameters; Cartesian positions are derived, never
/// stored.
#[derive(Clone, Copy, Debug, PartialEq, Eq, Structural)]
pub struct DoubleState {
    pub p1: Polar,
    pub p2: Polar,
    pub m1: i64,
    pub m2: i64,
    pub v1: i64,
    pub v2: i64,
    pub a1: i64,
    pub a2: i64,
    pub gravity: i64,
}

impl DoubleState {
    /// Every field representable, and the arms short enough for coordinate
    /// conversion.
    pub open spec fn wf(&self) -> bool {
        &&& in_fx(self.p1.length as int)
        &&& in_fx(self.p1.angle as int)
        &&& in_fx(self.p2.length as int)
        &&& in_fx(self.p2.angle as int)
        &&& in_fx(self.m1 as int)
        &&& in_fx(self.m2 as int)
        &&& in_fx(self.v1 as int)
        &&& in_fx(self.v2 as int)
        &&& in_fx(self.a1 as int)
        &&& in_fx(self.a2 as int)
        &&& in_fx(self.gravity as int)
        &&& -(COORD_MAX as int) <= self.p1.length as int <= COORD_MAX as int
        &&& -(COORD_MAX as int) <= self.p2.length as int <= COORD_MAX as int
    }
}

/// The combined mass term `2*m1 + m2`.
pub open spec fn mass_term(s: DoubleState) -> Option<int> {
    oadd(oadd(Some(s.m1 as int), Some(s.m1 as int)), Some(s.m2 as int))
}

/// The angle difference `th1 - th2` between the arms.
pub open spec fn angle_diff(s: DoubleState) -> Option<int> {
    osub(Some(s.p1.angle as int), Some(s.p2.angle as int))
}

/// Twice the sine of the angle difference.
pub open spec fn double_sin_diff(s: DoubleState) -> Option<int> {
    oadd(osin(angle_diff(s)), osin(angle_diff(s)))
}

/// The first arm's swing term `v1^2 * length1`.
pub open spec fn swing1_c(s: DoubleState) -> Option<int> {
    omul(omul(Some(s.v1 as int), Some(s.v1 as int)), Some(s.p1.length as int))
}

/// The second arm's swing term `v2^2 * length2`.
pub open spec fn swing2_c(s: DoubleState) -> Option<int> {
    omul(omul(Some(s.v2 as int), Some(s.v2 as int)), Some(s.p2.length as int))
}

/// The shared denominator factor `2*m1 + m2 - m2*cos(2*(th1 - th2))`.
pub open spec fn denom_factor(s: DoubleState) -> Option<int> {
    osub(mass_term(s), omul(Some(s.m2 as int), ocos(oadd(angle_diff(s), angle_diff(s)))))
}

/// The numerator of the first arm's angular acceleration:
/// `-g*(2*m1 + m2)*sin(th1) - m2*g*sin(th1 - 2*th2)
///  - 2*sin(th1 - th2)*m2*(v2^2*L2 + v1^2*L1*cos(th1 - th2))`.
pub open spec fn torque1(s: DoubleState) -> Option<int> {
    let g = Some(s.gravity as int);
    let m2o = Some(s.m2 as int);
    let th1 = Some(s.p1.angle as int);
    let th2 = Some(s.p2.angle as int);
    let t_a = omul(omul(g, mass_term(s)), osin(th1));
    let t_b = omul(omul(m2o, g), osin(osub(th1, oadd(th2, th2))));
    let t_c = omul(
        omul(double_sin_diff(s), m2o),
        oadd(swing2_c(s), omul(swing1_c(s), ocos(angle_diff(s)))),
    );
    osub(osub(oneg(t_a), t_b), t_c)
}

/// The numerator of the second arm's angular acceleration:
/// `2*sin(th1 - th2)*(v1^2*L1*(m1 + m2) + g*(m1 + m2)*cos(th1)
///  + v2^2*L2*m2*cos(th1 - th2))`.
pub open spec fn torque2(s: DoubleState) -> Option<int> {
    let g = Some(s.gravity as int);
    let msum = oadd(Some(s.m1 as int), Some(s.m2 as int));
    let q1 = omul(swing1_c(s), msum);
    let q2 = omul(omul(g, msum), ocos(Some(s.p1.angle as int)));
    let q3 = omul(omul(swing2_c(s), Some(s.m2 as int)), ocos(angle_diff(s)));
    omul(double_sin_diff(s), oadd(oadd(q1, q2), q3))
}

/// The first arm's angular acceleration for this step.
pub open spec fn accel1_c(s: DoubleState) -> Option<int> {
    odiv(torque1(s), omul(Some(s.p1.length as int), denom_factor(s)))
}

/// The second arm's angular acceleration for this step.
pub open spec fn accel2_c(s: DoubleState) -> Option<int> {
    odiv(torque2(s), omul(Some(s.p2.length as int), denom_factor(s)))
}

/// The first arm's velocity after the step.
pub open spec fn vel1_c(s: DoubleState) -> Option<int> {
    oadd(Some(s.v1 as int), accel1_c(s))
}

/// The second arm's velocity after the step.
pub open spec fn vel2_c(s: DoubleState) -> Option<int> {
    oadd(Some(s.v2 as int), accel2_c(s))
}

/// The first arm's angle after the step (updated velocity added).
pub open spec fn angle1_c(s: DoubleState) -> Option<int> {
    oadd(Some(s.p1.angle as int), vel1_c(s))
}

/// The second arm's angle after the step (updated velocity added).
pub open spec fn angle2_c(s: DoubleState) -> Option<int> {
    oadd(Some(s.p2.angle as int), vel2_c(s))
}

/// One semi-implicit Euler step of the coupled system. `None` exactly when
/// a denominator is zero or an intermediate value leaves the representable
/// range; masses, lengths and gravity are carried over unchanged.
pub open spec fn double_step(s: DoubleState) -> Option<DoubleState> {
    match (accel1_c(s), accel2_c(s), vel1_c(s), vel2_c(s), angle1_c(s), angle2_c(s)) {
        (Some(b1), Some(b2), Some(w1), Some(w2), Some(t1), Some(t2)) => Some(
            DoubleState {
                p1: Polar { length: s.p1.length, angle: t1 as i64 },
                p2: Polar { length: s.p2.length, angle: t2 as i64 },
                m1: s.m1,
                m2: s.m2,
                v1: w1 as i64,
                v2: w2 as i64,
                a1: b1 as i64,
                a2: b2 as i64,
                gravity: s.gravity,
            },
        ),
        _ => None,
    }
}

/// The renderable projection of a state: both arms, inner then outer.
pub open spec fn double_snapshot_of(s: DoubleState) -> (Polar, Polar) {
    (s.p1, s.p2)
}

/// Aligned arms feel no coupling torque on the outer bob: when both
/// angles are equal, every term of the second torque carries the factor
/// `sin(th1 - th2) = sin(0) = 0`, so a successful step gives the second
/// arm an acceleration of exactly zero — and, if it also starts at rest,
/// leaves its velocity and angle exactly unchanged.
pub proof fn lemma_aligned_arms_leave_second_at_rest(s: DoubleState)
    requires
        s.p1.angle == s.p2.angle,
    ensures
        accel2_c(s) matches Some(b) ==> b == 0,
        s.v2 == 0 ==> (double_step(s) matches Some(n) ==> n.v2 == 0 && n.p2.angle
            == s.p2.angle),
{
    assert(crate::trig::sin_spec(0) == 0);
    assert(angle_diff(s) == Some(0int));
    assert(double_sin_diff(s) == Some(0int));
    match torque2(s) {
        Some(t) => {
            assert(t == 0);
        },
        None => {},
    }
    match accel2_c(s) {
        Some(b) => {
            match omul(Some(s.p2.length as int), denom_factor(s)) {
                Some(d) => {
                    vstd::arithmetic::div_mod::lemma_div_of0(d);
                },
                None => {},
            }
        },
        None => {},
    }
}

/// The state after `n` steps; a failing step leaves the state as it was
/// (and every later step then fails the same way).
pub open spec fn double_run(s: DoubleState, n: nat) -> DoubleState
    decreases n,
{
    if n == 0 {
        s
    } else {
        let prev = double_run(s, (n - 1) as nat);
        match double_step(prev) {
            Some(next) => next,
            None => prev,
        }
    }
}

/// Determinism: the trajectory is a pure function of the initial state, so
/// two simulations started from identical parameters and stepped the same
/// number of times pass through identical states.
pub proof fn lemma_double_deterministic(s1: DoubleState, s2: DoubleState, n: nat)
    requires
        s1 == s2,
    ensures
        double_run(s1, n) == double_run(s2, n),
{
}

/// Unwraps a checked intermediate, or reports the degenerate configuration.
fn ck(o: Option<i64>) -> (r: Result<i64, DegenerateConfigurationError>)
    ensures
        match o {
            Some(v) => r == Ok::<i64, DegenerateConfigurationError>(v),
            None => r is Err,
        },
{
    match o {
        Some(v) => Ok(v),
        None => Err(DegenerateConfigurationError),
    }
}

impl DoubleState {
    /// One integration step, leaving `self` untouched: the next state, or
    /// the error when the configuration is degenerate (zero denominator or
    /// a value out of range).
    #[verifier::rlimit(100)]
    #[verifier::spinoff_prover]
    pub fn integrate(&self) -> (r: Result<DoubleState, DegenerateConfigurationError>)
        requires
            self.wf(),
        ensures
            match r {
                Ok(next) => double_step(*self) == Some(next) && next.wf(),
                Err(_) => double_step(*self) is None,
            },
    {
        let th1 = self.p1.angle;
        let th2 = self.p2.angle;
        let len1 = self.p1.length;
        let len2 = self.p2.length;
        let g = self.gravity;

        let m1_twice = ck(fx_add(self.m1, self.m1))?;
        let tm = ck(fx_add(m1_twice, self.m2))?;
        let s1 = sin_fx(th1);
        let c1 = cos_fx(th1);
        let two_th2 = ck(fx_add(th2, th2))?;
        let a12 = ck(fx_sub(th1, two_th2))?;
        let s12 = sin_fx(a12);
        let diff = ck(fx_sub(th1, th2))?;
        let sd = sin_fx(diff);
        let cd = cos_fx(diff);
        let dd = ck(fx_add(diff, diff))?;
        let cdd = cos_fx(dd);

        let g_tm = ck(fx_mul(g, tm))?;
        let t_a = ck(fx_mul(g_tm, s1))?;
        let mg = ck(fx_mul(self.m2, g))?;
        let t_b = ck(fx_mul(mg, s12))?;
        let v2sq = ck(fx_mul(self.v2, self.v2))?;
        let swing2 = ck(fx_mul(v2sq, len2))?;
        let v1sq = ck(fx_mul(self.v1, self.v1))?;
        let swing1 = ck(fx_mul(v1sq, len1))?;
        let t_c2 = ck(fx_mul(swing1, cd))?;
        let csum = ck(fx_add(swing2, t_c2))?;
        let sd2 = ck(fx_add(sd, sd))?;
        let sdm = ck(fx_mul(sd2, self.m2))?;
        let t_c = ck(fx_mul(sdm, csum))?;
        let neg_ta = fx_neg(t_a);
        let u1a = ck(fx_sub(neg_ta, t_b))?;
        let u1 = ck(fx_sub(u1a, t_c))?;

        let mcdd = ck(fx_mul(self.m2, cdd))?;
        let inner = ck(fx_sub(tm, mcdd))?;
        let denom1 = ck(fx_mul(len1, inner))?;
        let denom2 = ck(fx_mul(len2, inner))?;

        let msum = ck(fx_add(self.m1, self.m2))?;
        let q1 = ck(fx_mul(swing1, msum))?;
        let gm = ck(fx_mul(g, msum))?;
        let q2 = ck(fx_mul(gm, c1))?;
        let sw2m = ck(fx_mul(swing2, self.m2))?;
        let q3 = ck(fx_mul(sw2m, cd))?;
        let q12 = ck(fx_add(q1, q2))?;
        let qsum = ck(fx_add(q12, q3))?;
        let u2 = ck(fx_mul(sd2, qsum))?;

        let acc1 = ck(fx_div(u1, denom1))?;
        let acc2 = ck(fx_div(u2, denom2))?;
        let nv1 = ck(fx_add(self.v1, acc1))?;
        let nv2 = ck(fx_add(self.v2, acc2))?;
        let nt1 = ck(fx_add(th1, nv1))?;
        let nt2 = ck(fx_add(th2, nv2))?;

        Ok(
            DoubleState {
                p1: Polar { length: len1, angle: nt1 },
                p2: Polar { length: len2, angle: nt2 },
                m1: self.m1,
                m2: self.m2,
                v1: nv1,
                v2: nv2,
                a1: acc1,
                a2: acc2,
                gravity: g,
            },
        )
    }
}

/// The double-pendulum simulation driver: it owns the state and the
/// trajectory history, advances one frame per `step`, and hands the
/// renderer read-only snapshots.
pub struct DoublePendulum {
    pub state: DoubleState,
    pub history: History<(Polar, Polar)>,
}

impl DoublePendulum {
    /// The driver invariant: a well-formed state and a bounded history.
    pub open spec fn wf(&self) -> bool {
        self.state.wf() && self.history.wf()
    }

    /// A driver from initial arms, masses and gravity: the given angles,
    /// zero velocities and accelerations, an empty history.
    pub fn new(p1: Polar, m1: i64, p2: Polar, m2: i64, gravity: i64) -> (r: Self)
        requires
            -COORD_MAX <= p1.length <= COORD_MAX,
            -COORD_MAX <= p2.length <= COORD_MAX,
            in_fx(p1.angle as int),
            in_fx(p2.angle as int),
            in_fx(m1 as int),
            in_fx(m2 as int),
            in_fx(gravity as int),
        ensures
            r.wf(),
            r.state == (DoubleState {
                p1,
                p2,
                m1,
                m2,
                v1: 0,
                v2: 0,
                a1: 0,
                a2: 0,
                gravity,
            }),
            r.history@ == Seq::<(Polar, Polar)>::empty(),
            r.history.cap() == HISTORY_CAPACITY,
    {
        Self {
            state: DoubleState { p1, p2, m1, m2, v1: 0, v2: 0, a1: 0, a2: 0, gravity },
            history: History::new(HISTORY_CAPACITY),
        }
    }

    /// Advances one frame: integrates, then records both arms. On a
    /// degenerate configuration nothing changes and the error is returned.
    /// The history never exceeds its capacity, and after a successful step
    /// its last entry is the snapshot just recorded.
    pub fn step(&mut self) -> (r: Result<(), DegenerateConfigurationError>)
        requires
            old(self).wf(),
        ensures
            final(self).wf(),
            final(self).history.cap() == old(self).history.cap(),
            final(self).history@.len() <= final(self).history.cap(),
            match r {
                Ok(_) => {
                    &&& double_step(old(self).state) == Some(final(self).state)
                    &&& final(self).history@ == (if old(self).history@.len() < old(
                        self,
                    ).history.cap() {
                        old(self).history@.push(double_snapshot_of(final(self).state))
                    } else {
                        old(self).history@.subrange(1, old(self).history@.len() as int).push(
                            double_snapshot_of(final(self).state),
                        )
                    })
                    &&& final(self).history@.last() == double_snapshot_of(final(self).state)
                },
                Err(_) => double_step(old(self).state) is None && *final(self) == *old(self),
            },
    {
        match self.state.integrate() {
            Ok(next) => {
                self.state = next;
                self.history.record((self.state.p1, self.state.p2));
                Ok(())
            },
            Err(e) => Err(e),
        }
    }

    /// A read-only snapshot of both arms for the renderer.
    pub fn snapshot(&self) -> (r: (Polar, Polar))
        ensures
            r == double_snapshot_of(self.state),
    {
        (self.state.p1, self.state.p2)
    }

    /// Replaces the gravity parameter between steps.
    pub fn set_gravity(&mut self, gravity: i64)
        requires
            old(self).wf(),
            in_fx(gravity as int),
        ensures
            final(self).wf(),
            final(self).state == (DoubleState { gravity, ..old(self).state }),
            final(self).history == old(self).history,
    {
        self.state.gravity = gravity;
    }

    /// Replaces the first mass between steps.
    pub fn set_m1(&mut self, m1: i64)
        requires
            old(self).wf(),
            in_fx(m1 as int),
        ensures
            final(self).wf(),
            final(self).state == (DoubleState { m1, ..old(self).state }),
            final(self).history == old(self).history,
    {
        self.state.m1 = m1;
    }

    /// Replaces the second mass between steps.
    pub fn set_m2(&mut self, m2: i64)
        requires
            old(self).wf(),
            in_fx(m2 as int),
        ensures
            final(self).wf(),
            final(self).state == (DoubleState { m2, ..old(self).state }),
            final(self).history == old(self).history,
    {
        self.state.m2 = m2;
    }

    /// Replaces the first arm's length between steps.
    pub fn set_length1(&mut self, length: i64)
        requires
            old(self).wf(),
            -COORD_MAX <= length <= COORD_MAX,
        ensures
            final(self).wf(),
            final(self).state == (DoubleState {
                p1: Polar { length, angle: old(self).state.p1.angle },
                ..old(self).state
            }),
            final(self).history == old(self).history,
    {
        self.state.p1.length = length;
    }

    /// Replaces the second arm's length between steps.
    pub fn set_length2(&mut self, length: i64)
        requires
            old(self).wf(),
            -COORD_MAX <= length <= COORD_MAX,
        ensures
            final(self).wf(),
            final(self).state == (DoubleState {
                p2: Polar { length, angle: old(self).state.p2.angle },
                ..old(self).state
            }),
            final(self).history == old(self).history,
    {
        self.state.p2.length = length;
    }
}

} // verus!
