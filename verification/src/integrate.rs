//! Plain integration of a particle over a fixed time window.

use vstd::prelude::*;

use crate::config::IntegrationConfig;
use crate::error::ParticleError;
use crate::evolution::{spec_relative_std, Evolution};
use crate::field::{Bfield, Current, Perturbation, Qfactor};
use crate::particle::Particle;
use crate::scalar::Scalar;
use crate::stepper::Stepper;

verus! {

/// Integrates the particle over the time window `t_eval`.
///
/// The loop terminates when the last recorded time exceeds `t_eval.1`, or
/// with [`ParticleError::TimedOut`] after `max_steps` steps; in both cases
/// the recorded evolution is committed, finished and kept. A field
/// provider domain error or a NaN aborts the routine, retaining the
/// evolution recorded so far.
pub(crate) fn integrate<T: Scalar, A: Clone + Default, C: Clone + Default, H: Clone, Q: Qfactor<
    T,
    A,
>, Cu: Current<T, A>, B: Bfield<T, A, C>, P: Perturbation<T, A, H>>(
    particle: &mut Particle<T, A, C, H>,
    qfactor: &Q,
    current: &Cu,
    bfield: &B,
    perturbation: &P,
    t_eval: (T, T),
    config: &IntegrationConfig<T>,
) -> (r: Result<(), ParticleError>)
    ensures
        final(particle).initial_conditions == old(particle).initial_conditions,
        final(particle).initial_state.same_position(old(particle).initial_state),
        final(particle).frequencies == old(particle).frequencies,
        final(particle).evolution.consistent(),
        final(particle).evolution.steps_taken <= config.max_steps,
        final(particle).evolution.steps_stored == final(particle).evolution.steps_taken,
        r is Ok ==> final(particle).final_state.evaluated@ && final(particle).final_state.mu == old(particle).initial_state.mu,
        r is Ok ==> (final(particle).evolution.time@.len() > 0 && t_eval.1.spec_lt(
            final(particle).evolution.time@.last(),
        )) || (final(particle).evolution.time@.len() == 0 && t_eval.1.spec_lt(t_eval.0)),
        (r is Ok || (r matches Err(e) && e is TimedOut)) ==> forall|i: int|
            0 <= i < final(particle).evolution.time@.len() - 1 ==> !t_eval.1.spec_lt(
                #[trigger] final(particle).evolution.time@[i],
            ),
        (r is Ok || (r matches Err(e) && e is TimedOut)) ==> final(particle).evolution.energy_std
            == spec_relative_std(final(particle).evolution.energy@),
        (r is Ok || (r matches Err(e) && e is TimedOut)) ==> (final(particle).evolution.time@.len() > 0 ==> final(particle).evolution.time@.last() == final(particle).final_state.time),
        r matches Err(e) ==> (e is TimedOut || e is EqError || e is EvaluationNaN),
        r matches Err(e) ==> ((e is EqError || e is EvaluationNaN)
            ==> final(particle).final_state == old(particle).final_state),
        r matches Err(e) ==> (e is TimedOut ==> final(particle).evolution.steps_taken
            == config.max_steps && final(particle).final_state.evaluated@ && final(particle).final_state.mu == old(particle).initial_state.mu),
{
    // ==================== Setup

    let mut res: Result<(), ParticleError> = Ok(());
    particle.evolution = Evolution::default();
    match particle.initial_state.evaluate(qfactor, current, bfield, perturbation) {
        Ok(()) => {},
        Err(e) => {
            return Err(e);
        },
    }
    let mut state1 = particle.initial_state.branch();
    let mut dt = config.first_step;

    // ==================== Main loop

    loop
        invariant
            particle.initial_state.same_position(old(particle).initial_state),
            particle.initial_conditions == old(particle).initial_conditions,
            particle.frequencies == old(particle).frequencies,
            particle.evolution.consistent(),
            particle.evolution.steps_stored == particle.evolution.steps_taken,
            particle.evolution.steps_taken <= config.max_steps,
            particle.final_state == old(particle).final_state,
            state1.mu == particle.initial_state.mu,
            forall|i: int|
                0 <= i < particle.evolution.time@.len() - 1 ==> !t_eval.1.spec_lt(
                    #[trigger] particle.evolution.time@[i],
                ),
            particle.evolution.time@.len() > 0 ==> particle.evolution.time@.last() == state1.time,
        ensures
            res matches Err(e) ==> e is TimedOut,
            res is Err ==> particle.evolution.steps_taken == config.max_steps,
            res is Ok ==> (particle.evolution.time@.len() > 0 && t_eval.1.spec_lt(
                particle.evolution.time@.last(),
            )) || (particle.evolution.time@.len() == 0 && t_eval.1.spec_lt(t_eval.0)),
        decreases config.max_steps - particle.evolution.steps_taken,
    {
        if particle.evolution.steps_taken() == config.max_steps {
            res = Err(ParticleError::TimedOut);
            break;
        }
        let last_time = match particle.evolution.final_time() {
            Some(t) => t,
            None => t_eval.0,
        };
        if t_eval.1.lt(last_time) {
            res = Ok(());
            break;
        }

        // Perform a step.
        let mut stepper = Stepper::new(&state1);
        match stepper.start(dt, qfactor, current, bfield, perturbation) {
            Ok(()) => {},
            Err(e) => {
                return Err(e);
            },
        }
        let dt_next = match stepper.calculate_optimal_step(dt, config) {
            Ok(new_dt) => new_dt,
            Err(e) => {
                return Err(e);
            },
        };
        let state2 = match stepper.next_state(dt).into_evaluated(
            qfactor,
            current,
            bfield,
            perturbation,
        ) {
            Ok(s) => s,
            Err(e) => {
                return Err(e);
            },
        };
        dt = dt_next;
        particle.evolution.steps_taken = particle.evolution.steps_taken + 1;

        // Store and continue.
        particle.evolution.push_state(&state2);
        state1 = state2;
    }

    // ==================== Finalization

    let finalized = match state1.into_evaluated(qfactor, current, bfield, perturbation) {
        Ok(s) => s,
        Err(e) => {
            return Err(e);
        },
    };
    particle.final_state = finalized;
    particle.evolution.finish();
    particle.calculate_orbit_type();
    res
}

} // verus!
