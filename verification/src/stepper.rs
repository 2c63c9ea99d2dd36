//! The embedded Runge–Kutta–Fehlberg (order 4/5) adaptive stepper.

use vstd::prelude::*;

use crate::config::{StepperConfig, SteppingMethod};
use crate::error::ParticleError;
use crate::field::{Bfield, Current, Perturbation, Qfactor};
use crate::scalar::Scalar;
use crate::state::{spec_provider_dynamics, spec_provider_ok, Dynamics, State};

verus! {

/// The hardest the step size may grow in one acceptance. Since every step
/// is accepted (there is no reject-and-retry), growth is kept gentle so
/// that one acceptance cannot overshoot the error tolerance far.
pub const MAX_GROWTH_NUM: i64 = 2;

/// The hardest the step size may shrink in one acceptance: by 1/10.
pub const MIN_SHRINK_DEN: i64 = 10;

/// One slope of the system: a value of `d/dt` for each of the four
/// integrated coordinates `(θ, ψp, ρ, ζ)`.
#[derive(Clone, Copy)]
pub struct Slopes<T> {
    /// The `θ` component.
    pub theta: T,
    /// The `ψp` component.
    pub psip: T,
    /// The `ρ` component.
    pub rho: T,
    /// The `ζ` component.
    pub zeta: T,
}

impl<T: Scalar> Slopes<T> {
    /// The zero slope.
    pub(crate) fn zero() -> Self {
        let zero = T::from_ratio(0, 1);
        Slopes { theta: zero, psip: zero, rho: zero, zeta: zero }
    }

    /// Every component multiplied by `factor`.
    pub(crate) fn scaled(self, factor: T) -> (r: Self)
        ensures
            r == spec_scaled(self, factor),
    {
        Slopes {
            theta: self.theta.times(factor),
            psip: self.psip.times(factor),
            rho: self.rho.times(factor),
            zeta: self.zeta.times(factor),
        }
    }

    /// The component-wise sum.
    pub(crate) fn added(self, other: Self) -> (r: Self)
        ensures
            r == spec_added(self, other),
    {
        Slopes {
            theta: self.theta.plus(other.theta),
            psip: self.psip.plus(other.psip),
            rho: self.rho.plus(other.rho),
            zeta: self.zeta.plus(other.zeta),
        }
    }
}

/// The four slopes of a [`Dynamics`] value, at the specification level.
pub open spec fn spec_slopes_of<T: Scalar>(d: Dynamics<T>) -> Slopes<T> {
    Slopes { theta: d.theta_dot, psip: d.psip_dot, rho: d.rho_dot, zeta: d.zeta_dot }
}

/// A slope with every component multiplied by `factor`, at the
/// specification level.
pub open spec fn spec_scaled<T: Scalar>(s: Slopes<T>, factor: T) -> Slopes<T> {
    Slopes {
        theta: s.theta.spec_times(factor),
        psip: s.psip.spec_times(factor),
        rho: s.rho.spec_times(factor),
        zeta: s.zeta.spec_times(factor),
    }
}

/// The component-wise sum of two slopes, at the specification level.
pub open spec fn spec_added<T: Scalar>(a: Slopes<T>, b: Slopes<T>) -> Slopes<T> {
    Slopes {
        theta: a.theta.spec_plus(b.theta),
        psip: a.psip.spec_plus(b.psip),
        rho: a.rho.spec_plus(b.rho),
        zeta: a.zeta.spec_plus(b.zeta),
    }
}

/// The first stage slope of the trial step: the provider's dynamics at
/// the starting point itself.
pub open spec fn spec_k1<T: Scalar, A, C, H, Q: Qfactor<T, A>, Cu: Current<T, A>, B: Bfield<T, A, C>, P: Perturbation<T, A, H>>(theta: T, psip: T, rho: T, zeta: T, mu: T, dt: T, qfactor: Q, current: Cu, bfield: B, perturbation: P) -> Slopes<T> {
    spec_slopes_of(
        spec_provider_dynamics(psip, theta, zeta, rho, mu, qfactor, current, bfield, perturbation),
    )
}

/// The offset of stage 2's evaluation point from the starting point.
pub open spec fn spec_o2<T: Scalar, A, C, H, Q: Qfactor<T, A>, Cu: Current<T, A>, B: Bfield<T, A, C>, P: Perturbation<T, A, H>>(theta: T, psip: T, rho: T, zeta: T, mu: T, dt: T, qfactor: Q, current: Cu, bfield: B, perturbation: P) -> Slopes<T> {
    spec_scaled(spec_k1(theta, psip, rho, zeta, mu, dt, qfactor, current, bfield, perturbation), dt.spec_times(T::spec_from_ratio(1, 4)))
}

/// The slope of stage 2: the provider's dynamics at the offset point.
pub open spec fn spec_k2<T: Scalar, A, C, H, Q: Qfactor<T, A>, Cu: Current<T, A>, B: Bfield<T, A, C>, P: Perturbation<T, A, H>>(theta: T, psip: T, rho: T, zeta: T, mu: T, dt: T, qfactor: Q, current: Cu, bfield: B, perturbation: P) -> Slopes<T> {
    let o = spec_o2(theta, psip, rho, zeta, mu, dt, qfactor, current, bfield, perturbation);
    spec_slopes_of(
        spec_provider_dynamics(
            psip.spec_plus(o.psip),
            theta.spec_plus(o.theta),
            zeta.spec_plus(o.zeta),
            rho.spec_plus(o.rho),
            mu,
            qfactor,
            current,
            bfield,
            perturbation,
        ),
    )
}

/// The offset of stage 3's evaluation point from the starting point.
pub open spec fn spec_o3<T: Scalar, A, C, H, Q: Qfactor<T, A>, Cu: Current<T, A>, B: Bfield<T, A, C>, P: Perturbation<T, A, H>>(theta: T, psip: T, rho: T, zeta: T, mu: T, dt: T, qfactor: Q, current: Cu, bfield: B, perturbation: P) -> Slopes<T> {
    spec_added(spec_scaled(spec_k1(theta, psip, rho, zeta, mu, dt, qfactor, current, bfield, perturbation), dt.spec_times(T::spec_from_ratio(3, 32))), spec_scaled(spec_k2(theta, psip, rho, zeta, mu, dt, qfactor, current, bfield, perturbation), dt.spec_times(T::spec_from_ratio(9, 32))))
}

/// The slope of stage 3: the provider's dynamics at the offset point.
pub open spec fn spec_k3<T: Scalar, A, C, H, Q: Qfactor<T, A>, Cu: Current<T, A>, B: Bfield<T, A, C>, P: Perturbation<T, A, H>>(theta: T, psip: T, rho: T, zeta: T, mu: T, dt: T, qfactor: Q, current: Cu, bfield: B, perturbation: P) -> Slopes<T> {
    let o = spec_o3(theta, psip, rho, zeta, mu, dt, qfactor, current, bfield, perturbation);
    spec_slopes_of(
        spec_provider_dynamics(
            psip.spec_plus(o.psip),
            theta.spec_plus(o.theta),
            zeta.spec_plus(o.zeta),
            rho.spec_plus(o.rho),
            mu,
            qfactor,
            current,
            bfield,
            perturbation,
        ),
    )
}

/// The offset of stage 4's evaluation point from the starting point.
pub open spec fn spec_o4<T: Scalar, A, C, H, Q: Qfactor<T, A>, Cu: Current<T, A>, B: Bfield<T, A, C>, P: Perturbation<T, A, H>>(theta: T, psip: T, rho: T, zeta: T, mu: T, dt: T, qfactor: Q, current: Cu, bfield: B, perturbation: P) -> Slopes<T> {
    spec_added(spec_added(spec_scaled(spec_k1(theta, psip, rho, zeta, mu, dt, qfactor, current, bfield, perturbation), dt.spec_times(T::spec_from_ratio(1932, 2197))), spec_scaled(spec_k2(theta, psip, rho, zeta, mu, dt, qfactor, current, bfield, perturbation), dt.spec_times(T::spec_from_ratio(-7200i64, 2197)))), spec_scaled(spec_k3(theta, psip, rho, zeta, mu, dt, qfactor, current, bfield, perturbation), dt.spec_times(T::spec_from_ratio(7296, 2197))))
}

/// The slope of stage 4: the provider's dynamics at the offset point.
pub open spec fn spec_k4<T: Scalar, A, C, H, Q: Qfactor<T, A>, Cu: Current<T, A>, B: Bfield<T, A, C>, P: Perturbation<T, A, H>>(theta: T, psip: T, rho: T, zeta: T, mu: T, dt: T, qfactor: Q, current: Cu, bfield: B, perturbation: P) -> Slopes<T> {
    let o = spec_o4(theta, psip, rho, zeta, mu, dt, qfactor, current, bfield, perturbation);
    spec_slopes_of(
        spec_provider_dynamics(
            psip.spec_plus(o.psip),
            theta.spec_plus(o.theta),
            zeta.spec_plus(o.zeta),
            rho.spec_plus(o.rho),
            mu,
            qfactor,
            current,
            bfield,
            perturbation,
        ),
    )
}

/// The offset of stage 5's evaluation point from the starting point.
pub open spec fn spec_o5<T: Scalar, A, C, H, Q: Qfactor<T, A>, Cu: Current<T, A>, B: Bfield<T, A, C>, P: Perturbation<T, A, H>>(theta: T, psip: T, rho: T, zeta: T, mu: T, dt: T, qfactor: Q, current: Cu, bfield: B, perturbation: P) -> Slopes<T> {
    spec_added(spec_added(spec_added(spec_scaled(spec_k1(theta, psip, rho, zeta, mu, dt, qfactor, current, bfield, perturbation), dt.spec_times(T::spec_from_ratio(439, 216))), spec_scaled(spec_k2(theta, psip, rho, zeta, mu, dt, qfactor, current, bfield, perturbation), dt.spec_times(T::spec_from_ratio(-8i64, 1)))), spec_scaled(spec_k3(theta, psip, rho, zeta, mu, dt, qfactor, current, bfield, perturbation), dt.spec_times(T::spec_from_ratio(3680, 513)))), spec_scaled(spec_k4(theta, psip, rho, zeta, mu, dt, qfactor, current, bfield, perturbation), dt.spec_times(T::spec_from_ratio(-845i64, 4104))))
}

/// The slope of stage 5: the provider's dynamics at the offset point.
pub open spec fn spec_k5<T: Scalar, A, C, H, Q: Qfactor<T, A>, Cu: Current<T, A>, B: Bfield<T, A, C>, P: Perturbation<T, A, H>>(theta: T, psip: T, rho: T, zeta: T, mu: T, dt: T, qfactor: Q, current: Cu, bfield: B, perturbation: P) -> Slopes<T> {
    let o = spec_o5(theta, psip, rho, zeta, mu, dt, qfactor, current, bfield, perturbation);
    spec_slopes_of(
        spec_provider_dynamics(
            psip.spec_plus(o.psip),
            theta.spec_plus(o.theta),
            zeta.spec_plus(o.zeta),
            rho.spec_plus(o.rho),
            mu,
            qfactor,
            current,
            bfield,
            perturbation,
        ),
    )
}

/// The offset of stage 6's evaluation point from the starting point.
pub open spec fn spec_o6<T: Scalar, A, C, H, Q: Qfactor<T, A>, Cu: Current<T, A>, B: Bfield<T, A, C>, P: Perturbation<T, A, H>>(theta: T, psip: T, rho: T, zeta: T, mu: T, dt: T, qfactor: Q, current: Cu, bfield: B, perturbation: P) -> Slopes<T> {
    spec_added(spec_added(spec_added(spec_added(spec_scaled(spec_k1(theta, psip, rho, zeta, mu, dt, qfactor, current, bfield, perturbation), dt.spec_times(T::spec_from_ratio(-8i64, 27))), spec_scaled(spec_k2(theta, psip, rho, zeta, mu, dt, qfactor, current, bfield, perturbation), dt.spec_times(T::spec_from_ratio(2, 1)))), spec_scaled(spec_k3(theta, psip, rho, zeta, mu, dt, qfactor, current, bfield, perturbation), dt.spec_times(T::spec_from_ratio(-3544i64, 2565)))), spec_scaled(spec_k4(theta, psip, rho, zeta, mu, dt, qfactor, current, bfield, perturbation), dt.spec_times(T::spec_from_ratio(1859, 4104)))), spec_scaled(spec_k5(theta, psip, rho, zeta, mu, dt, qfactor, current, bfield, perturbation), dt.spec_times(T::spec_from_ratio(-11i64, 40))))
}

/// The slope of stage 6: the provider's dynamics at the offset point.
pub open spec fn spec_k6<T: Scalar, A, C, H, Q: Qfactor<T, A>, Cu: Current<T, A>, B: Bfield<T, A, C>, P: Perturbation<T, A, H>>(theta: T, psip: T, rho: T, zeta: T, mu: T, dt: T, qfactor: Q, current: Cu, bfield: B, perturbation: P) -> Slopes<T> {
    let o = spec_o6(theta, psip, rho, zeta, mu, dt, qfactor, current, bfield, perturbation);
    spec_slopes_of(
        spec_provider_dynamics(
            psip.spec_plus(o.psip),
            theta.spec_plus(o.theta),
            zeta.spec_plus(o.zeta),
            rho.spec_plus(o.rho),
            mu,
            qfactor,
            current,
            bfield,
            perturbation,
        ),
    )
}

/// The fifth-order combination of the stage slopes of the trial step.
pub open spec fn spec_rkf_weights<T: Scalar, A, C, H, Q: Qfactor<T, A>, Cu: Current<T, A>, B: Bfield<T, A, C>, P: Perturbation<T, A, H>>(theta: T, psip: T, rho: T, zeta: T, mu: T, dt: T, qfactor: Q, current: Cu, bfield: B, perturbation: P) -> Slopes<T> {
    spec_added(spec_added(spec_added(spec_added(spec_scaled(spec_k1(theta, psip, rho, zeta, mu, dt, qfactor, current, bfield, perturbation), T::spec_from_ratio(16, 135)), spec_scaled(spec_k3(theta, psip, rho, zeta, mu, dt, qfactor, current, bfield, perturbation), T::spec_from_ratio(6656, 12825))), spec_scaled(spec_k4(theta, psip, rho, zeta, mu, dt, qfactor, current, bfield, perturbation), T::spec_from_ratio(28561, 56430))), spec_scaled(spec_k5(theta, psip, rho, zeta, mu, dt, qfactor, current, bfield, perturbation), T::spec_from_ratio(-9i64, 50))), spec_scaled(spec_k6(theta, psip, rho, zeta, mu, dt, qfactor, current, bfield, perturbation), T::spec_from_ratio(2, 55)))
}

/// The embedded fourth/fifth-order truncation error estimate of the
/// trial step, per unit step: the difference of the fifth- and
/// fourth-order weight combinations.
pub open spec fn spec_rkf_error_estimate<T: Scalar, A, C, H, Q: Qfactor<T, A>, Cu: Current<T, A>, B: Bfield<T, A, C>, P: Perturbation<T, A, H>>(theta: T, psip: T, rho: T, zeta: T, mu: T, dt: T, qfactor: Q, current: Cu, bfield: B, perturbation: P) -> Slopes<T> {
    spec_added(spec_added(spec_added(spec_added(spec_scaled(spec_k1(theta, psip, rho, zeta, mu, dt, qfactor, current, bfield, perturbation), T::spec_from_ratio(1, 360)), spec_scaled(spec_k3(theta, psip, rho, zeta, mu, dt, qfactor, current, bfield, perturbation), T::spec_from_ratio(-128i64, 4275))), spec_scaled(spec_k4(theta, psip, rho, zeta, mu, dt, qfactor, current, bfield, perturbation), T::spec_from_ratio(-2197i64, 75240))), spec_scaled(spec_k5(theta, psip, rho, zeta, mu, dt, qfactor, current, bfield, perturbation), T::spec_from_ratio(1, 50))), spec_scaled(spec_k6(theta, psip, rho, zeta, mu, dt, qfactor, current, bfield, perturbation), T::spec_from_ratio(2, 55)))
}

/// Whether the field provider yields every stage of the trial step: the
/// starting point, the five offset stage points, and the fifth-order
/// candidate point. The conjunction short-circuits in evaluation order,
/// exactly as the stage evaluation does.
pub open spec fn spec_cascade_ok<T: Scalar, A, C, H, Q: Qfactor<T, A>, Cu: Current<T, A>, B: Bfield<T, A, C>, P: Perturbation<T, A, H>>(theta: T, psip: T, rho: T, zeta: T, mu: T, dt: T, qfactor: Q, current: Cu, bfield: B, perturbation: P) -> bool {
    &&& spec_provider_ok(psip, theta, zeta, qfactor, current, bfield, perturbation)
    &&& {
        let o = spec_o2(theta, psip, rho, zeta, mu, dt, qfactor, current, bfield, perturbation);
        spec_provider_ok(
            psip.spec_plus(o.psip),
            theta.spec_plus(o.theta),
            zeta.spec_plus(o.zeta),
            qfactor,
            current,
            bfield,
            perturbation,
        )
    }
    &&& {
        let o = spec_o3(theta, psip, rho, zeta, mu, dt, qfactor, current, bfield, perturbation);
        spec_provider_ok(
            psip.spec_plus(o.psip),
            theta.spec_plus(o.theta),
            zeta.spec_plus(o.zeta),
            qfactor,
            current,
            bfield,
            perturbation,
        )
    }
    &&& {
        let o = spec_o4(theta, psip, rho, zeta, mu, dt, qfactor, current, bfield, perturbation);
        spec_provider_ok(
            psip.spec_plus(o.psip),
            theta.spec_plus(o.theta),
            zeta.spec_plus(o.zeta),
            qfactor,
            current,
            bfield,
            perturbation,
        )
    }
    &&& {
        let o = spec_o5(theta, psip, rho, zeta, mu, dt, qfactor, current, bfield, perturbation);
        spec_provider_ok(
            psip.spec_plus(o.psip),
            theta.spec_plus(o.theta),
            zeta.spec_plus(o.zeta),
            qfactor,
            current,
            bfield,
            perturbation,
        )
    }
    &&& {
        let o = spec_o6(theta, psip, rho, zeta, mu, dt, qfactor, current, bfield, perturbation);
        spec_provider_ok(
            psip.spec_plus(o.psip),
            theta.spec_plus(o.theta),
            zeta.spec_plus(o.zeta),
            qfactor,
            current,
            bfield,
            perturbation,
        )
    }
    &&& {
        let w = spec_rkf_weights(theta, psip, rho, zeta, mu, dt, qfactor, current, bfield, perturbation);
        spec_provider_ok(
            psip.spec_plus(dt.spec_times(w.psip)),
            theta.spec_plus(dt.spec_times(w.theta)),
            zeta.spec_plus(dt.spec_times(w.zeta)),
            qfactor,
            current,
            bfield,
            perturbation,
        )
    }
}

/// The energy at the starting point of the trial step.
pub open spec fn spec_start_energy<T: Scalar, A, C, H, Q: Qfactor<T, A>, Cu: Current<T, A>, B: Bfield<T, A, C>, P: Perturbation<T, A, H>>(theta: T, psip: T, rho: T, zeta: T, mu: T, dt: T, qfactor: Q, current: Cu, bfield: B, perturbation: P) -> T {
    spec_provider_dynamics(psip, theta, zeta, rho, mu, qfactor, current, bfield, perturbation).energy
}

/// The energy at the fifth-order candidate point of the trial step.
pub open spec fn spec_candidate_energy<T: Scalar, A, C, H, Q: Qfactor<T, A>, Cu: Current<T, A>, B: Bfield<T, A, C>, P: Perturbation<T, A, H>>(theta: T, psip: T, rho: T, zeta: T, mu: T, dt: T, qfactor: Q, current: Cu, bfield: B, perturbation: P) -> T {
    let w = spec_rkf_weights(theta, psip, rho, zeta, mu, dt, qfactor, current, bfield, perturbation);
    spec_provider_dynamics(
        psip.spec_plus(dt.spec_times(w.psip)),
        theta.spec_plus(dt.spec_times(w.theta)),
        zeta.spec_plus(dt.spec_times(w.zeta)),
        rho.spec_plus(dt.spec_times(w.rho)),
        mu,
        qfactor,
        current,
        bfield,
        perturbation,
    ).energy
}

/// One embedded Runge–Kutta–Fehlberg step from a given [`State`].
///
/// [`Stepper::start`] evaluates the six stage slopes against the field
/// provider; [`Stepper::calculate_optimal_step`] proposes the next step
/// size under the configured policy; [`Stepper::next_state`] combines the
/// stages with the fifth-order weights into a candidate state, which is
/// left unevaluated for the enclosing routine to evaluate once.
pub struct Stepper<T, A, C, H> {
    /// An owned copy of the starting state; its evaluation aids serve the
    /// stage evaluations.
    pub state: State<T, A, C, H>,
    /// The fifth-order combination of the stage slopes.
    pub weights: Slopes<T>,
    /// The embedded fourth/fifth-order truncation error estimate per unit
    /// step.
    pub error_estimate: Slopes<T>,
    /// The energy at the starting point, freshly provided.
    pub energy_start: T,
    /// The energy at the fifth-order candidate point of the trial step.
    pub energy_candidate: T,
    /// Whether the six stages have been evaluated.
    pub started: Ghost<bool>,
}

impl<T: Scalar, A: Clone, C: Clone, H: Clone> Stepper<T, A, C, H> {
    /// Prepares a step starting from `state`, which is left untouched.
    pub fn new(state: &State<T, A, C, H>) -> (r: Self)
        ensures
            r.state.same_scalars(*state),
            !r.started@,
    {
        Stepper {
            state: state.branch(),
            weights: Slopes::zero(),
            error_estimate: Slopes::zero(),
            energy_start: T::nan(),
            energy_candidate: T::nan(),
            started: Ghost(false),
        }
    }

    /// Evaluates the six RKF stage slopes from the starting state, with a
    /// trial step of `dt`.
    ///
    /// Fails with the field provider's domain error when any stage point
    /// falls outside the valid region, leaving the stepper unstarted.
    pub fn start<Q: Qfactor<T, A>, Cu: Current<T, A>, B: Bfield<T, A, C>, P: Perturbation<
        T,
        A,
        H,
    >>(
        &mut self,
        dt: T,
        qfactor: &Q,
        current: &Cu,
        bfield: &B,
        perturbation: &P,
    ) -> (r: Result<(), ParticleError>)
        ensures
            final(self).state.same_scalars(old(self).state),
            r is Ok ==> final(self).started@,
            r is Err ==> final(self).started == old(self).started,
            r matches Err(e) ==> e is EqError,
            r is Ok <==> spec_cascade_ok(
                old(self).state.theta,
                old(self).state.psip,
                old(self).state.rho,
                old(self).state.zeta,
                old(self).state.mu,
                dt,
                *qfactor,
                *current,
                *bfield,
                *perturbation,
            ),
            r is Ok ==> final(self).weights == spec_rkf_weights(
                old(self).state.theta,
                old(self).state.psip,
                old(self).state.rho,
                old(self).state.zeta,
                old(self).state.mu,
                dt,
                *qfactor,
                *current,
                *bfield,
                *perturbation,
            ) && final(self).error_estimate == spec_rkf_error_estimate(
                old(self).state.theta,
                old(self).state.psip,
                old(self).state.rho,
                old(self).state.zeta,
                old(self).state.mu,
                dt,
                *qfactor,
                *current,
                *bfield,
                *perturbation,
            ) && final(self).energy_start == spec_start_energy(
                old(self).state.theta,
                old(self).state.psip,
                old(self).state.rho,
                old(self).state.zeta,
                old(self).state.mu,
                dt,
                *qfactor,
                *current,
                *bfield,
                *perturbation,
            ) && final(self).energy_candidate == spec_candidate_energy(
                old(self).state.theta,
                old(self).state.psip,
                old(self).state.rho,
                old(self).state.zeta,
                old(self).state.mu,
                dt,
                *qfactor,
                *current,
                *bfield,
                *perturbation,
            ),
    {
        let theta = self.state.theta;
        let psip = self.state.psip;
        let rho = self.state.rho;
        let zeta = self.state.zeta;

        // Stage 1: the starting point itself.
        let d1 = match self.state.dynamics_at(
            theta,
            psip,
            rho,
            zeta,
            qfactor,
            current,
            bfield,
            perturbation,
        ) {
            Ok(d) => d,
            Err(e) => {
                return Err(ParticleError::EqError(e));
            },
        };
        let k1 = Slopes { theta: d1.theta_dot, psip: d1.psip_dot, rho: d1.rho_dot, zeta: d1.zeta_dot };
        let energy_start = d1.energy;

        // Stage 2, at c₂ = 1/4.
        let o2 = k1.scaled(dt.times(T::from_ratio(1, 4)));
        let d2 = match self.state.dynamics_at(
            theta.plus(o2.theta),
            psip.plus(o2.psip),
            rho.plus(o2.rho),
            zeta.plus(o2.zeta),
            qfactor,
            current,
            bfield,
            perturbation,
        ) {
            Ok(d) => d,
            Err(e) => {
                return Err(ParticleError::EqError(e));
            },
        };
        let k2 = Slopes { theta: d2.theta_dot, psip: d2.psip_dot, rho: d2.rho_dot, zeta: d2.zeta_dot };

        // Stage 3, at c₃ = 3/8.
        let o3 = k1.scaled(dt.times(T::from_ratio(3, 32))).added(
            k2.scaled(dt.times(T::from_ratio(9, 32))),
        );
        let d3 = match self.state.dynamics_at(
            theta.plus(o3.theta),
            psip.plus(o3.psip),
            rho.plus(o3.rho),
            zeta.plus(o3.zeta),
            qfactor,
            current,
            bfield,
            perturbation,
        ) {
            Ok(d) => d,
            Err(e) => {
                return Err(ParticleError::EqError(e));
            },
        };
        let k3 = Slopes { theta: d3.theta_dot, psip: d3.psip_dot, rho: d3.rho_dot, zeta: d3.zeta_dot };

        // Stage 4, at c₄ = 12/13.
        let o4 = k1.scaled(dt.times(T::from_ratio(1932, 2197))).added(
            k2.scaled(dt.times(T::from_ratio(-7200, 2197))),
        ).added(k3.scaled(dt.times(T::from_ratio(7296, 2197))));
        let d4 = match self.state.dynamics_at(
            theta.plus(o4.theta),
            psip.plus(o4.psip),
            rho.plus(o4.rho),
            zeta.plus(o4.zeta),
            qfactor,
            current,
            bfield,
            perturbation,
        ) {
            Ok(d) => d,
            Err(e) => {
                return Err(ParticleError::EqError(e));
            },
        };
        let k4 = Slopes { theta: d4.theta_dot, psip: d4.psip_dot, rho: d4.rho_dot, zeta: d4.zeta_dot };

        // Stage 5, at c₅ = 1: the full-step point.
        let o5 = k1.scaled(dt.times(T::from_ratio(439, 216))).added(
            k2.scaled(dt.times(T::from_ratio(-8, 1))),
        ).added(k3.scaled(dt.times(T::from_ratio(3680, 513)))).added(
            k4.scaled(dt.times(T::from_ratio(-845, 4104))),
        );
        let d5 = match self.state.dynamics_at(
            theta.plus(o5.theta),
            psip.plus(o5.psip),
            rho.plus(o5.rho),
            zeta.plus(o5.zeta),
            qfactor,
            current,
            bfield,
            perturbation,
        ) {
            Ok(d) => d,
            Err(e) => {
                return Err(ParticleError::EqError(e));
            },
        };
        let k5 = Slopes { theta: d5.theta_dot, psip: d5.psip_dot, rho: d5.rho_dot, zeta: d5.zeta_dot };

        // Stage 6, at c₆ = 1/2.
        let o6 = k1.scaled(dt.times(T::from_ratio(-8, 27))).added(
            k2.scaled(dt.times(T::from_ratio(2, 1))),
        ).added(k3.scaled(dt.times(T::from_ratio(-3544, 2565)))).added(
            k4.scaled(dt.times(T::from_ratio(1859, 4104))),
        ).added(k5.scaled(dt.times(T::from_ratio(-11, 40))));
        let d6 = match self.state.dynamics_at(
            theta.plus(o6.theta),
            psip.plus(o6.psip),
            rho.plus(o6.rho),
            zeta.plus(o6.zeta),
            qfactor,
            current,
            bfield,
            perturbation,
        ) {
            Ok(d) => d,
            Err(e) => {
                return Err(ParticleError::EqError(e));
            },
        };
        let k6 = Slopes { theta: d6.theta_dot, psip: d6.psip_dot, rho: d6.rho_dot, zeta: d6.zeta_dot };

        // Fifth-order weights.
        self.weights = k1.scaled(T::from_ratio(16, 135)).added(
            k3.scaled(T::from_ratio(6656, 12825)),
        ).added(k4.scaled(T::from_ratio(28561, 56430))).added(
            k5.scaled(T::from_ratio(-9, 50)),
        ).added(k6.scaled(T::from_ratio(2, 55)));

        // Difference of the fifth- and embedded fourth-order weights.
        self.error_estimate = k1.scaled(T::from_ratio(1, 360)).added(
            k3.scaled(T::from_ratio(-128, 4275)),
        ).added(k4.scaled(T::from_ratio(-2197, 75240))).added(
            k5.scaled(T::from_ratio(1, 50)),
        ).added(k6.scaled(T::from_ratio(2, 55)));

        // The energy at the candidate point of this trial step, for the
        // energy-adaptive policy.
        let weights = self.weights;
        let d_candidate = match self.state.dynamics_at(
            theta.plus(dt.times(weights.theta)),
            psip.plus(dt.times(weights.psip)),
            rho.plus(dt.times(weights.rho)),
            zeta.plus(dt.times(weights.zeta)),
            qfactor,
            current,
            bfield,
            perturbation,
        ) {
            Ok(d) => d,
            Err(e) => {
                return Err(ParticleError::EqError(e));
            },
        };

        self.energy_start = energy_start;
        self.energy_candidate = d_candidate.energy;
        self.started = Ghost(true);
        Ok(())
    }

    /// One component of the truncation-error proxy, at the specification
    /// level: the estimate over one step of `dt`, against
    /// `abs_tol + rel_tol·|y|`.
    pub open spec fn spec_component_error(self, dt: T, estimate: T, y: T, config_abs: T, config_rel: T) -> T {
        dt.spec_times(estimate).spec_abs().spec_over(
            config_abs.spec_plus(config_rel.spec_times(y.spec_abs())),
        )
    }

    /// The error proxy of the configured policy, at the specification
    /// level: the energy drift over one trial step for the energy-adaptive
    /// policy, the largest scaled component of the embedded truncation
    /// error estimate for the error-adaptive one.
    pub open spec fn spec_step_error<Cfg: StepperConfig<T>>(self, dt: T, config: Cfg) -> T {
        match config.spec_method() {
            SteppingMethod::EnergyAdaptiveStep => self.energy_candidate.spec_minus(
                self.energy_start,
            ).spec_abs(),
            SteppingMethod::ErrorAdaptiveStep => {
                let config_abs = config.spec_error_abs_tol();
                let config_rel = config.spec_error_rel_tol();
                self.spec_component_error(
                    dt,
                    self.error_estimate.theta,
                    self.state.theta,
                    config_abs,
                    config_rel,
                ).spec_max_with(
                    self.spec_component_error(
                        dt,
                        self.error_estimate.psip,
                        self.state.psip,
                        config_abs,
                        config_rel,
                    ),
                ).spec_max_with(
                    self.spec_component_error(
                        dt,
                        self.error_estimate.rho,
                        self.state.rho,
                        config_abs,
                        config_rel,
                    ),
                ).spec_max_with(
                    self.spec_component_error(
                        dt,
                        self.error_estimate.zeta,
                        self.state.zeta,
                        config_abs,
                        config_rel,
                    ),
                )
            },
        }
    }

    /// The tolerance-to-error ratio of the configured policy, at the
    /// specification level: for the energy-adaptive policy the tolerance
    /// is `max(abs_tol, rel_tol·|E|)`; for the error-adaptive one the
    /// components are already scaled, so the tolerance is one.
    pub open spec fn spec_step_ratio<Cfg: StepperConfig<T>>(self, dt: T, config: Cfg) -> T {
        match config.spec_method() {
            SteppingMethod::EnergyAdaptiveStep => config.spec_energy_abs_tol().spec_max_with(
                config.spec_energy_rel_tol().spec_times(self.energy_start.spec_abs()),
            ).spec_over(self.spec_step_error(dt, config)),
            SteppingMethod::ErrorAdaptiveStep => T::spec_from_ratio(1, 1).spec_over(
                self.spec_step_error(dt, config),
            ),
        }
    }

    /// The next optimal step size, at the specification level:
    /// `safety_factor · dt · (tol/error)^(1/5)`, with the growth clamped
    /// to a factor of two and the shrink to a factor of one tenth.
    pub open spec fn spec_optimal_step<Cfg: StepperConfig<T>>(self, dt: T, config: Cfg) -> T {
        let raw = config.spec_safety_factor().spec_times(
            self.spec_step_ratio(dt, config).spec_powf(T::spec_from_ratio(1, 5)),
        );
        let max_growth = T::spec_from_ratio(MAX_GROWTH_NUM, 1);
        let min_shrink = T::spec_from_ratio(1, 1).spec_over(T::spec_from_ratio(MIN_SHRINK_DEN, 1));
        let capped = if !raw.spec_is_finite() || max_growth.spec_lt(raw) {
            max_growth
        } else {
            raw
        };
        let clamped = if capped.spec_lt(min_shrink) {
            min_shrink
        } else {
            capped
        };
        dt.spec_times(clamped)
    }

    /// Computes the next optimal step size under the configured policy.
    ///
    /// Both policies produce `safety_factor · dt · (tol/error)^(1/5)`, the
    /// classic embedded step control, with the growth clamped to a factor
    /// of two and the shrink to a factor of one tenth, so that the new
    /// step can never be non-positive or non-finite. Fails with
    /// [`ParticleError::EvaluationNaN`] exactly when the error estimate is
    /// non-finite (NaN propagation, or an overflowed estimate).
    pub fn calculate_optimal_step<Cfg: StepperConfig<T>>(&self, dt: T, config: &Cfg) -> (r: Result<
        T,
        ParticleError,
    >)
        requires
            self.started@,
        ensures
            r is Err <==> !self.spec_step_error(dt, *config).spec_is_finite(),
            r matches Ok(v) ==> v == self.spec_optimal_step(dt, *config),
            r matches Err(e) ==> e is EvaluationNaN,
    {
        let one = T::from_ratio(1, 1);
        let ratio = match config.method() {
            SteppingMethod::EnergyAdaptiveStep => {
                // Error proxy: the energy drift over one trial step.
                let error = self.energy_candidate.minus(self.energy_start).abs();
                if !error.is_finite() {
                    return Err(ParticleError::EvaluationNaN);
                }
                let tol = config.energy_abs_tol().max_with(
                    config.energy_rel_tol().times(self.energy_start.abs()),
                );
                tol.over(error)
            },
            SteppingMethod::ErrorAdaptiveStep => {
                // Error proxy: the embedded truncation error estimate,
                // component-wise against `abs_tol + rel_tol·|y|`.
                let abs_tol = config.error_abs_tol();
                let rel_tol = config.error_rel_tol();
                let e_theta = dt.times(self.error_estimate.theta).abs().over(
                    abs_tol.plus(rel_tol.times(self.state.theta.abs())),
                );
                let e_psip = dt.times(self.error_estimate.psip).abs().over(
                    abs_tol.plus(rel_tol.times(self.state.psip.abs())),
                );
                let e_rho = dt.times(self.error_estimate.rho).abs().over(
                    abs_tol.plus(rel_tol.times(self.state.rho.abs())),
                );
                let e_zeta = dt.times(self.error_estimate.zeta).abs().over(
                    abs_tol.plus(rel_tol.times(self.state.zeta.abs())),
                );
                let error = e_theta.max_with(e_psip).max_with(e_rho).max_with(e_zeta);
                if !error.is_finite() {
                    return Err(ParticleError::EvaluationNaN);
                }
                one.over(error)
            },
        };

        let mut factor = config.safety_factor().times(ratio.powf(T::from_ratio(1, 5)));
        let max_growth = T::from_ratio(MAX_GROWTH_NUM, 1);
        let min_shrink = one.over(T::from_ratio(MIN_SHRINK_DEN, 1));
        if !factor.is_finite() || max_growth.lt(factor) {
            factor = max_growth;
        }
        if factor.lt(min_shrink) {
            factor = min_shrink;
        }
        Ok(dt.times(factor))
    }

    /// Combines the stage slopes with the fifth-order weights into the
    /// candidate state after a step of `dt`, consuming the stepper.
    ///
    /// The candidate carries the starting state's magnetic moment `μ`
    /// bit-identically, takes the weight combination as its derivative
    /// fields, inherits the warmed evaluation aids, and is left
    /// unevaluated: the enclosing routine evaluates it once, immediately
    /// after, to avoid duplicate field provider calls.
    pub fn next_state(self, dt: T) -> (r: State<T, A, C, H>)
        requires
            self.started@,
        ensures
            r.time == self.state.time.spec_plus(dt),
            r.theta == self.state.theta.spec_plus(dt.spec_times(self.weights.theta)),
            r.psip == self.state.psip.spec_plus(dt.spec_times(self.weights.psip)),
            r.rho == self.state.rho.spec_plus(dt.spec_times(self.weights.rho)),
            r.zeta == self.state.zeta.spec_plus(dt.spec_times(self.weights.zeta)),
            r.mu == self.state.mu,
            r.theta_dot == self.weights.theta,
            r.psip_dot == self.weights.psip,
            r.rho_dot == self.weights.rho,
            r.zeta_dot == self.weights.zeta,
            !r.evaluated@,
    {
        State {
            time: self.state.time.plus(dt),
            theta: self.state.theta.plus(dt.times(self.weights.theta)),
            psip: self.state.psip.plus(dt.times(self.weights.psip)),
            rho: self.state.rho.plus(dt.times(self.weights.rho)),
            zeta: self.state.zeta.plus(dt.times(self.weights.zeta)),
            theta_dot: self.weights.theta,
            psip_dot: self.weights.psip,
            rho_dot: self.weights.rho,
            zeta_dot: self.weights.zeta,
            mu: self.state.mu,
            psi: self.state.psi,
            ptheta: self.state.ptheta,
            pzeta: self.state.pzeta,
            energy: self.state.energy,
            evaluated: Ghost(false),
            xacc: self.state.xacc,
            yacc: self.state.yacc,
            cache: self.state.cache,
            hcache: self.state.hcache,
        }
    }
}

} // verus!
