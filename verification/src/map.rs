//! Poincaré mapping: integration with exact intersection extraction.

use vstd::prelude::*;

use crate::config::MappingConfig;
use crate::error::ParticleError;
use crate::evolution::{spec_relative_std, Evolution};
use crate::field::{Bfield, Current, Perturbation, Qfactor};
use crate::henon::{
    calculate_intersection_state, calculate_mod_state1, calculate_mod_state2, calculate_mod_step,
    intersected,
};
use crate::particle::Particle;
use crate::scalar::Scalar;
use crate::stepper::Stepper;

verus! {

/// Defines the surface of the Poincaré section.
#[derive(Debug, Clone, Copy, PartialEq, Eq, Structural)]
pub enum PoincareSection {
    /// A surface of constant θ.
    ConstTheta,
    /// A surface of constant ζ.
    ConstZeta,
}

/// All the parameters of a Poincaré map.
#[non_exhaustive]
#[derive(Debug, Clone, Copy)]
pub struct MappingParameters<T> {
    /// The surface of section Σ, defined by an equation xᵢ = α, where
    /// xᵢ = θ or ζ.
    pub section: PoincareSection,
    /// The constant defining the surface of section, normalized into
    /// [0, 2π) at construction.
    pub alpha: T,
    /// The number of intersections to calculate.
    pub intersections: usize,
}

impl<T: Scalar> MappingParameters<T> {
    /// Creates a new [`MappingParameters`], normalizing `alpha` into
    /// [0, 2π) once so that no step of the mapping has to.
    pub fn new(section: PoincareSection, alpha: T, intersections: usize) -> (r: Self)
        ensures
            r.section == section,
            r.alpha == alpha.spec_rem_euclid(T::spec_pi().spec_plus(T::spec_pi())),
            r.intersections == intersections,
    {
        let tau = T::pi().plus(T::pi());
        MappingParameters { section, alpha: alpha.rem_euclid(tau), intersections }
    }
}

/// Calculates the particle's intersections with the configured Poincaré
/// surface.
///
/// Every step of the normal system is tested for a crossing of the
/// surface; on a hit, Hénon's trick synthesizes the exact intersection
/// state, which is recorded — the regular step is not. The loop ends
/// successfully once `intersections + 1` states are stored (the first one
/// is usually still off the surface), or with
/// [`ParticleError::TimedOut`] after `max_steps` steps. A completed map
/// must then pass [`check_mapping_accuracy`], or the whole routine fails
/// with [`ParticleError::IntersectionError`].
///
/// Even after landing on an intersection, the integration continues from
/// the regular step's end state: continuing from the intersection state
/// would most likely trigger a wrong sign-change detection and get the
/// particle stuck, while the regular state came from the solver and is
/// valid within its tolerance.
pub(crate) fn map_integrate<T: Scalar, A: Clone + Default, C: Clone + Default, H: Clone, Q: Qfactor<
    T,
    A,
>, Cu: Current<T, A>, B: Bfield<T, A, C>, P: Perturbation<T, A, H>>(
    particle: &mut Particle<T, A, C, H>,
    qfactor: &Q,
    current: &Cu,
    bfield: &B,
    perturbation: &P,
    params: &MappingParameters<T>,
    config: &MappingConfig<T>,
) -> (r: Result<(), ParticleError>)
    requires
        params.intersections < usize::MAX,
    ensures
        final(particle).initial_conditions == old(particle).initial_conditions,
        final(particle).initial_state.same_position(old(particle).initial_state),
        final(particle).frequencies == old(particle).frequencies,
        final(particle).evolution.consistent(),
        final(particle).evolution.steps_taken <= config.max_steps,
        r is Ok ==> final(particle).evolution.steps_stored == params.intersections + 1 && final(particle).final_state.evaluated@ && final(particle).final_state.mu == old(particle).initial_state.mu,
        (r is Ok || (r matches Err(e) && e is TimedOut)) ==> spec_spacing_within(
            spec_section_series(params.section, final(particle).evolution),
            config.map_threshold,
        ),
        (r is Ok || (r matches Err(e) && e is TimedOut)) ==> final(particle).evolution.energy_std
            == spec_relative_std(final(particle).evolution.energy@),
        r matches Err(e) ==> (e is TimedOut || e is EqError || e is EvaluationNaN
            || e is IntersectionError),
        r matches Err(e) ==> ((e is EqError || e is EvaluationNaN || e is IntersectionError)
            ==> final(particle).final_state == old(particle).final_state),
        r matches Err(e) ==> (e is TimedOut ==> final(particle).evolution.steps_taken
            == config.max_steps && final(particle).final_state.evaluated@
            && final(particle).final_state.mu == old(particle).initial_state.mu),
{
    // ==================== Setup

    let mut res: Result<(), ParticleError> = Ok(());
    particle.evolution = Evolution::default();
    match particle.initial_state.evaluate(qfactor, current, bfield, perturbation) {
        Ok(()) => {},
        Err(e) => {
            return Err(e);
        },
    }
    let mut state1 = particle.initial_state.branch();
    let mut dt = config.first_step;

    // ==================== Main loop

    loop
        invariant
            params.intersections < usize::MAX,
            particle.initial_state.same_position(old(particle).initial_state),
            particle.initial_conditions == old(particle).initial_conditions,
            particle.frequencies == old(particle).frequencies,
            particle.evolution.consistent(),
            particle.evolution.steps_stored <= params.intersections + 1,
            particle.evolution.steps_taken <= config.max_steps,
            particle.final_state == old(particle).final_state,
            state1.mu == particle.initial_state.mu,
        ensures
            res matches Err(e) ==> e is TimedOut,
            res is Err ==> particle.evolution.steps_taken == config.max_steps,
            res is Ok ==> particle.evolution.steps_stored == params.intersections + 1,
        decreases config.max_steps - particle.evolution.steps_taken,
    {
        if particle.evolution.steps_taken() == config.max_steps {
            res = Err(ParticleError::TimedOut);
            break;
        }
        if particle.evolution.steps_stored() > params.intersections {
            res = Ok(());
            break;
        }

        // Perform a step on the normal system.
        let mut stepper = Stepper::new(&state1);
        match stepper.start(dt, qfactor, current, bfield, perturbation) {
            Ok(()) => {},
            Err(e) => {
                return Err(e);
            },
        }
        let dt_next = match stepper.calculate_optimal_step(dt, config) {
            Ok(new_dt) => new_dt,
            Err(e) => {
                return Err(e);
            },
        };
        let state2 = match stepper.next_state(dt).into_evaluated(
            qfactor,
            current,
            bfield,
            perturbation,
        ) {
            Ok(s) => s,
            Err(e) => {
                return Err(e);
            },
        };
        dt = dt_next;
        particle.evolution.steps_taken = particle.evolution.steps_taken + 1;

        // Hénon's trick. Depending on the section, the independent
        // variable becomes either θ or ζ.
        let (old_angle, new_angle) = match params.section {
            PoincareSection::ConstTheta => (state1.theta, state2.theta),
            PoincareSection::ConstZeta => (state1.zeta, state2.zeta),
        };
        if intersected(old_angle, new_angle, params.alpha) {
            let mod_state1 = calculate_mod_state1(&state1, &params.section);
            let dtau = calculate_mod_step(&state1, &state2, params);
            let mod_state2 = match calculate_mod_state2(
                qfactor,
                current,
                bfield,
                perturbation,
                mod_state1,
                dtau,
            ) {
                Ok(s) => s,
                Err(e) => {
                    return Err(e);
                },
            };
            let intersection_state = match calculate_intersection_state(
                qfactor,
                current,
                bfield,
                perturbation,
                params,
                mod_state2,
            ) {
                Ok(s) => s,
                Err(e) => {
                    return Err(e);
                },
            };

            particle.evolution.push_state(&intersection_state);
        }
        // In both cases, continue from the regular next state.
        state1 = state2;
    }

    // ==================== Finalization

    match check_mapping_accuracy(&particle.evolution, &params.section, config) {
        Ok(()) => {},
        Err(e) => {
            return Err(e);
        },
    }
    let finalized = match state1.into_evaluated(qfactor, current, bfield, perturbation) {
        Ok(s) => s,
        Err(e) => {
            return Err(e);
        },
    };
    particle.final_state = finalized;
    particle.evolution.finish();
    particle.calculate_orbit_type();
    res
}

/// The deviation of one pair of consecutive intersection angles from an
/// exact spacing of 2π, at the specification level:
/// `||next − prev| − 2π|`.
pub open spec fn spec_spacing_deviation<T: Scalar>(prev: T, next: T) -> T {
    let tau = T::spec_pi().spec_plus(T::spec_pi());
    next.spec_minus(prev).spec_abs().spec_minus(tau).spec_abs()
}

/// Whether every consecutive pair of the series after the first one
/// deviates from a spacing of 2π by less than `threshold`, at the
/// specification level. The first pair is excluded: the starting point is
/// usually not on the surface.
pub open spec fn spec_spacing_within<T: Scalar>(series: Seq<T>, threshold: T) -> bool {
    forall|i: int|
        2 <= i < series.len() ==> spec_spacing_deviation(#[trigger] series[i - 1], series[i]).spec_lt(
            threshold,
        )
}

/// The intersection series of the configured section: the ζ series for a
/// constant-ζ map, the θ series for a constant-θ one.
pub open spec fn spec_section_series<T: Scalar>(
    section: PoincareSection,
    evolution: Evolution<T>,
) -> Seq<T> {
    match section {
        PoincareSection::ConstZeta => evolution.zeta@,
        PoincareSection::ConstTheta => evolution.theta@,
    }
}

/// Checks that the stored intersection series of a completed map is
/// consistent: every difference of two consecutive entries, the first pair
/// excluded (the starting point is usually not on the surface), must
/// deviate from exactly 2π by less than the configured threshold.
pub fn check_mapping_accuracy<T: Scalar>(
    evolution: &Evolution<T>,
    section: &PoincareSection,
    config: &MappingConfig<T>,
) -> (r: Result<(), ParticleError>)
    ensures
        r is Ok <==> spec_spacing_within(
            spec_section_series(*section, *evolution),
            config.map_threshold,
        ),
        r matches Err(e) ==> e is IntersectionError,
{
    let intersections_array = match section {
        PoincareSection::ConstZeta => &evolution.zeta,
        PoincareSection::ConstTheta => &evolution.theta,
    };
    accuracy_check(intersections_array.as_slice(), config)
}

/// The accuracy test itself, on a bare series of intersection angles.
pub fn accuracy_check<T: Scalar>(
    intersections_array: &[T],
    config: &MappingConfig<T>,
) -> (r: Result<(), ParticleError>)
    ensures
        r is Ok <==> spec_spacing_within(intersections_array@, config.map_threshold),
        r matches Err(e) ==> e is IntersectionError,
{
    let tau = T::pi().plus(T::pi());
    let n = intersections_array.len();
    let mut idx: usize = 2;
    while idx < n
        invariant
            2 <= idx,
            n == intersections_array@.len(),
            tau == T::spec_pi().spec_plus(T::spec_pi()),
            forall|j: int|
                2 <= j < idx ==> spec_spacing_deviation(
                    #[trigger] intersections_array@[j - 1],
                    intersections_array@[j],
                ).spec_lt(config.map_threshold),
        decreases n - idx,
    {
        let difference = intersections_array[idx].minus(intersections_array[idx - 1]);
        let deviation = difference.abs().minus(tau).abs();
        proof {
            assert(deviation == spec_spacing_deviation(
                intersections_array@[idx - 1],
                intersections_array@[idx as int],
            ));
        }
        if !deviation.lt(config.map_threshold) {
            proof {
                assert(!spec_spacing_deviation(
                    intersections_array@[idx - 1],
                    intersections_array@[idx as int],
                ).spec_lt(config.map_threshold));
            }
            return Err(ParticleError::IntersectionError);
        }
        idx = idx + 1;
    }
    Ok(())
}

} // verus!
