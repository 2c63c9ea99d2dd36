//! Single-period integration and orbit frequency closure.

use vstd::prelude::*;

use crate::config::SinglePeriodConfig;
use crate::error::ParticleError;
use crate::evolution::{spec_relative_std, Evolution};
use crate::field::{Bfield, Current, Perturbation, Qfactor};
use crate::henon::{
    calculate_intersection_state, calculate_mod_state1, calculate_mod_state2, calculate_mod_step,
    intersected,
};
use crate::map::{MappingParameters, PoincareSection};
use crate::particle::Particle;
use crate::scalar::Scalar;
use crate::stepper::Stepper;

verus! {

/// A tally of the steps at which the trajectory crossed one of its
/// initial values: how often, and at which step numbers.
#[derive(Clone, Debug)]
pub struct CrossingRecord {
    /// The number of recorded crossings; always the length of `steps`.
    pub count: usize,
    /// The step number of each crossing, in order.
    pub steps: Vec<usize>,
}

/// A particle's `ωθ`, `ωζ` and `qkinetic`, together with the step numbers
/// at which the trajectory crossed its initial `ψp` and `θ` values.
///
/// `qkinetic = ωζ/ωθ` is defined exactly when both frequencies are.
#[derive(Clone, Debug)]
pub struct Frequencies<T> {
    /// The poloidal transit frequency `ωθ = 2π/Tω`.
    pub omega_theta: Option<T>,
    /// The bounce/transit averaged rate of toroidal precession
    /// `ωζ = Δζ/Tω`.
    pub omega_zeta: Option<T>,
    /// The kinetic safety factor `ωζ/ωθ`.
    pub qkinetic: Option<T>,
    /// The crossings of the trajectory's initial `ψp`.
    pub psip_intersections: CrossingRecord,
    /// The crossings of the trajectory's initial `θ`.
    pub theta_intersections: CrossingRecord,
}

impl<T: Scalar> Frequencies<T> {
    /// Updates `ωθ` to a new value, and `qkinetic` accordingly:
    /// `ωζ/value` when `ωζ` is present, absent otherwise.
    pub fn update_omega_theta(&mut self, value: T)
        ensures
            final(self).omega_theta == Some(value),
            final(self).omega_zeta == old(self).omega_zeta,
            final(self).qkinetic == match old(self).omega_zeta {
                Some(omega_zeta) => Some(omega_zeta.spec_over(value)),
                None => None::<T>,
            },
            final(self).psip_intersections == old(self).psip_intersections,
            final(self).theta_intersections == old(self).theta_intersections,
    {
        self.omega_theta = Some(value);
        self.update_qkinetic();
    }

    /// Updates `ωζ` to a new value, and `qkinetic` accordingly:
    /// `value/ωθ` when `ωθ` is present, absent otherwise.
    pub fn update_omega_zeta(&mut self, value: T)
        ensures
            final(self).omega_zeta == Some(value),
            final(self).omega_theta == old(self).omega_theta,
            final(self).qkinetic == match old(self).omega_theta {
                Some(omega_theta) => Some(value.spec_over(omega_theta)),
                None => None::<T>,
            },
            final(self).psip_intersections == old(self).psip_intersections,
            final(self).theta_intersections == old(self).theta_intersections,
    {
        self.omega_zeta = Some(value);
        self.update_qkinetic();
    }

    /// Sets `qkinetic` to `ωζ/ωθ` if both frequencies are present,
    /// otherwise to `None`.
    fn update_qkinetic(&mut self)
        ensures
            final(self).omega_theta == old(self).omega_theta,
            final(self).omega_zeta == old(self).omega_zeta,
            final(self).qkinetic == match (old(self).omega_zeta, old(self).omega_theta) {
                (Some(omega_zeta), Some(omega_theta)) => Some(omega_zeta.spec_over(omega_theta)),
                _ => None::<T>,
            },
            final(self).psip_intersections == old(self).psip_intersections,
            final(self).theta_intersections == old(self).theta_intersections,
    {
        self.qkinetic = match (self.omega_zeta, self.omega_theta) {
            (Some(omega_zeta), Some(omega_theta)) => Some(omega_zeta.over(omega_theta)),
            _ => None,
        };
    }

    /// Records that the trajectory crossed its initial `θ` at `step_num`.
    pub(crate) fn update_theta_intersections(&mut self, step_num: usize)
        ensures
            final(self).theta_intersections.steps@ == old(self).theta_intersections.steps@.push(step_num),
            final(self).theta_intersections.count == final(self).theta_intersections.steps@.len(),
            final(self).psip_intersections == old(self).psip_intersections,
            final(self).omega_theta == old(self).omega_theta,
            final(self).omega_zeta == old(self).omega_zeta,
            final(self).qkinetic == old(self).qkinetic,
    {
        self.theta_intersections.steps.push(step_num);
        self.theta_intersections.count = self.theta_intersections.steps.len();
    }

    /// Records that the trajectory crossed its initial `ψp` at `step_num`.
    pub(crate) fn update_psip_intersections(&mut self, step_num: usize)
        ensures
            final(self).psip_intersections.steps@ == old(self).psip_intersections.steps@.push(step_num),
            final(self).psip_intersections.count == final(self).psip_intersections.steps@.len(),
            final(self).theta_intersections == old(self).theta_intersections,
            final(self).omega_theta == old(self).omega_theta,
            final(self).omega_zeta == old(self).omega_zeta,
            final(self).qkinetic == old(self).qkinetic,
    {
        self.psip_intersections.steps.push(step_num);
        self.psip_intersections.count = self.psip_intersections.steps.len();
    }

    /// Returns `ωθ`, if calculated.
    pub fn omega_theta(&self) -> (r: Option<T>)
        ensures
            r == self.omega_theta,
    {
        self.omega_theta
    }

    /// Returns `ωζ`, if calculated.
    pub fn omega_zeta(&self) -> (r: Option<T>)
        ensures
            r == self.omega_zeta,
    {
        self.omega_zeta
    }

    /// Returns `qkinetic`, if both frequencies have been calculated.
    pub fn qkinetic(&self) -> (r: Option<T>)
        ensures
            r == self.qkinetic,
    {
        self.qkinetic
    }
}

impl<T: Scalar> Default for Frequencies<T> {
    /// No frequency calculated, no crossing recorded.
    fn default() -> (r: Self)
        ensures
            r.omega_theta is None,
            r.omega_zeta is None,
            r.qkinetic is None,
            r.psip_intersections.count == 0,
            r.psip_intersections.steps@.len() == 0,
            r.theta_intersections.count == 0,
            r.theta_intersections.steps@.len() == 0,
    {
        Frequencies {
            omega_theta: None,
            omega_zeta: None,
            qkinetic: None,
            psip_intersections: CrossingRecord { count: 0, steps: Vec::new() },
            theta_intersections: CrossingRecord { count: 0, steps: Vec::new() },
        }
    }
}

/// Integrates the particle for one `θ-ψp` period.
///
/// The loop steps until the trajectory crosses both its initial `θ` and
/// its initial `ψp` while both angular velocities keep the sign they had
/// at the start (a guard against false positives from oscillatory
/// crossings). On detection, Hénon's trick with a constant-θ section at
/// `α = θ0` computes the exact return time `Tω` and toroidal displacement
/// `Δζ`, and the frequencies become `ωθ = 2π/Tω`, `ωζ = Δζ/Tω`,
/// `qkinetic = ωζ/ωθ`; the exact return state is recorded and becomes the
/// final state. Runs out with [`ParticleError::TimedOut`] after
/// `max_steps` steps, retaining the evolution recorded so far.
pub(crate) fn close_theta_period<T: Scalar, A: Clone + Default, C: Clone + Default, H: Clone, Q: Qfactor<
    T,
    A,
>, Cu: Current<T, A>, B: Bfield<T, A, C>, P: Perturbation<T, A, H>>(
    particle: &mut Particle<T, A, C, H>,
    qfactor: &Q,
    current: &Cu,
    bfield: &B,
    perturbation: &P,
    config: &SinglePeriodConfig<T>,
) -> (r: Result<(), ParticleError>)
    requires
        config.max_steps < usize::MAX,
    ensures
        final(particle).initial_conditions == old(particle).initial_conditions,
        final(particle).initial_state.same_position(old(particle).initial_state),
        final(particle).evolution.consistent(),
        final(particle).evolution.steps_taken <= config.max_steps,
        r is Ok ==> final(particle).frequencies.omega_theta is Some && final(particle).frequencies.omega_zeta is Some && final(particle).frequencies.qkinetic is Some && final(particle).final_state.evaluated@ && final(particle).final_state.mu == old(particle).initial_state.mu,
        r is Ok ==> {
            let t_period = final(particle).final_state.time.spec_minus(
                old(particle).initial_state.time,
            );
            let omega_theta = T::spec_pi().spec_plus(T::spec_pi()).spec_over(t_period);
            let omega_zeta = final(particle).final_state.zeta.spec_minus(
                old(particle).initial_state.zeta,
            ).spec_over(t_period);
            &&& final(particle).frequencies.omega_theta == Some(omega_theta)
            &&& final(particle).frequencies.omega_zeta == Some(omega_zeta)
            &&& final(particle).frequencies.qkinetic == Some(omega_zeta.spec_over(omega_theta))
            &&& final(particle).evolution.steps_taken >= 2
            &&& final(particle).evolution.time@.len() > 0
            &&& final(particle).evolution.time@.last() == final(particle).final_state.time
        },
        r is Ok ==> final(particle).evolution.energy_std == spec_relative_std(
            final(particle).evolution.energy@,
        ),
        r matches Err(e) ==> (e is TimedOut || e is EqError || e is EvaluationNaN),
        r is Err ==> final(particle).final_state == old(particle).final_state,
        r matches Err(e) ==> (e is TimedOut ==> final(particle).evolution.steps_taken
            == config.max_steps),
{
    // ==================== Setup

    particle.evolution = Evolution::default();
    match particle.initial_state.evaluate(qfactor, current, bfield, perturbation) {
        Ok(()) => {},
        Err(e) => {
            return Err(e);
        },
    }
    let mut state1 = particle.initial_state.branch();
    let mut dt = config.first_step;

    let theta0 = particle.initial_state.theta;
    let psip0 = particle.initial_state.psip;
    let zeta0 = particle.initial_state.zeta;
    let time0 = particle.initial_state.time;
    let theta_dot0 = particle.initial_state.theta_dot;
    let psip_dot0 = particle.initial_state.psip_dot;

    // ==================== Main loop

    loop
        invariant_except_break
            particle.evolution.steps_stored <= particle.evolution.steps_taken,
            particle.final_state == old(particle).final_state,
        invariant
            config.max_steps < usize::MAX,
            time0 == old(particle).initial_state.time,
            zeta0 == old(particle).initial_state.zeta,
            particle.initial_state.same_position(old(particle).initial_state),
            particle.initial_conditions == old(particle).initial_conditions,
            particle.evolution.consistent(),
            particle.evolution.steps_taken <= config.max_steps,
            state1.mu == particle.initial_state.mu,
        ensures
            particle.final_state.evaluated@,
            particle.final_state.mu == old(particle).initial_state.mu,
            particle.evolution.consistent(),
            particle.evolution.steps_taken <= config.max_steps,
            particle.evolution.steps_taken >= 2,
            particle.evolution.time@.len() > 0,
            particle.evolution.time@.last() == particle.final_state.time,
            particle.initial_state.same_position(old(particle).initial_state),
            particle.initial_conditions == old(particle).initial_conditions,
            ({
                let t_period = particle.final_state.time.spec_minus(
                    old(particle).initial_state.time,
                );
                let omega_theta = T::spec_pi().spec_plus(T::spec_pi()).spec_over(t_period);
                let omega_zeta = particle.final_state.zeta.spec_minus(
                    old(particle).initial_state.zeta,
                ).spec_over(t_period);
                &&& particle.frequencies.omega_theta == Some(omega_theta)
                &&& particle.frequencies.omega_zeta == Some(omega_zeta)
                &&& particle.frequencies.qkinetic == Some(omega_zeta.spec_over(omega_theta))
            }),
        decreases config.max_steps - particle.evolution.steps_taken,
    {
        if particle.evolution.steps_taken() == config.max_steps {
            return Err(ParticleError::TimedOut);
        }

        // Perform a step.
        let mut stepper = Stepper::new(&state1);
        match stepper.start(dt, qfactor, current, bfield, perturbation) {
            Ok(()) => {},
            Err(e) => {
                return Err(e);
            },
        }
        let dt_next = match stepper.calculate_optimal_step(dt, config) {
            Ok(new_dt) => new_dt,
            Err(e) => {
                return Err(e);
            },
        };
        let state2 = match stepper.next_state(dt).into_evaluated(
            qfactor,
            current,
            bfield,
            perturbation,
        ) {
            Ok(s) => s,
            Err(e) => {
                return Err(e);
            },
        };
        dt = dt_next;
        particle.evolution.steps_taken = particle.evolution.steps_taken + 1;
        particle.evolution.push_state(&state2);

        // Prevent the particle from stopping at the first step.
        if particle.evolution.steps_stored() < 2 {
            state1 = state2;
            continue;
        }

        // Check whether a period closed between state1 and state2.
        let old_theta = state1.theta;
        let new_theta = state2.theta;
        let old_psip = state1.psip;
        let new_psip = state2.psip;
        let old_theta_dot = state1.theta_dot;
        let old_psip_dot = state1.psip_dot;

        let mut psip_intersected = false;
        let mut theta_intersected = false;

        if intersected(old_psip, new_psip, psip0) {
            particle.frequencies.update_psip_intersections(particle.evolution.steps_taken());
            psip_intersected = true;
        }
        if intersected(old_theta, new_theta, theta0) {
            particle.frequencies.update_theta_intersections(particle.evolution.steps_taken());
            theta_intersected = true;
        }

        // The same-direction guard: both angular velocities must keep the
        // sign they had at the start.
        let same_directions = old_theta_dot.same_sign(theta_dot0) && old_psip_dot.same_sign(
            psip_dot0,
        );

        if theta_intersected && psip_intersected && same_directions {
            // Hénon's trick: go back to state1 and find the exact step
            // that completes the period. This brings θ to its initial
            // value exactly, but not ψp, although the difference is
            // negligible.
            let params = MappingParameters {
                section: PoincareSection::ConstTheta,
                alpha: theta0,
                intersections: 1,
            };
            let mod_state1 = calculate_mod_state1(&state1, &params.section);
            let dtau = calculate_mod_step(&state1, &state2, &params);
            let mod_state2 = match calculate_mod_state2(
                qfactor,
                current,
                bfield,
                perturbation,
                mod_state1,
                dtau,
            ) {
                Ok(s) => s,
                Err(e) => {
                    return Err(e);
                },
            };
            let intersection_state = match calculate_intersection_state(
                qfactor,
                current,
                bfield,
                perturbation,
                &params,
                mod_state2,
            ) {
                Ok(s) => s,
                Err(e) => {
                    return Err(e);
                },
            };

            // The orbit frequency ωζ corresponds to the bounce/transit
            // averaged rate of toroidal precession Δζ/Tω.
            let omega_period = intersection_state.time.minus(time0);
            let omega_theta = T::pi().plus(T::pi()).over(omega_period);
            let dzeta = intersection_state.zeta.minus(zeta0);
            let omega_zeta = dzeta.over(omega_period);

            particle.frequencies.update_omega_theta(omega_theta);
            particle.frequencies.update_omega_zeta(omega_zeta);
            particle.evolution.push_state(&intersection_state);
            particle.final_state = intersection_state;
            break;
        }
        // Keep going when no period closed yet.
        state1 = state2;
    }

    // ==================== Finalization

    particle.evolution.finish();
    particle.calculate_orbit_type();
    Ok(())
}

} // verus!
