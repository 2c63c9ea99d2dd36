//! Representation of a particle and its integration status.

use vstd::prelude::*;

use crate::config::{IntegrationConfig, MappingConfig, SinglePeriodConfig};
use crate::error::ParticleError;
use crate::evolution::{spec_relative_std, Evolution};
use crate::field::{Bfield, Current, Perturbation, Qfactor};
use crate::map::MappingParameters;
use crate::scalar::Scalar;
use crate::single_period::Frequencies;
use crate::state::{InitialConditions, State};

verus! {

/// The [`Particle`]'s integration status.
///
/// `Initialized` and the terminal statuses are the only states; no
/// partial status is visible outside a routine call. Each routine maps its
/// result to exactly one terminal status (see
/// [`Particle::set_status_from_error`]).
#[derive(Debug, Clone)]
pub enum IntegrationStatus {
    /// Initialized from [`InitialConditions`], not integrated.
    Initialized,
    /// Reached the end of the integration successfully.
    Integrated,
    /// Reached the end of the mapping successfully.
    Mapped,
    /// Integrated for one period of `θ-ψp`.
    SinglePeriodIntegrated,
    /// Escaped: hit the wall of the reconstructed region.
    Escaped,
    /// A NaN was encountered during a state evaluation.
    EvaluationNan,
    /// Timed out after the maximum number of steps.
    TimedOut,
    /// The intersections calculated by a mapping are invalid: the spacing
    /// between each intersection and its neighbor must be exactly 2π, up
    /// to the configured threshold.
    InvalidIntersections,
    /// Integration or mapping failed for another, named reason.
    Failed(String),
}

impl Default for IntegrationStatus {
    /// A fresh particle is `Initialized`.
    fn default() -> (r: Self)
        ensures
            r is Initialized,
    {
        IntegrationStatus::Initialized
    }
}

impl IntegrationStatus {
    /// Whether the status is `Initialized`.
    pub fn is_initialized(&self) -> (r: bool)
        ensures
            r == (self is Initialized),
    {
        matches!(self, IntegrationStatus::Initialized)
    }

    /// Whether the status is `Integrated`.
    pub fn is_integrated(&self) -> (r: bool)
        ensures
            r == (self is Integrated),
    {
        matches!(self, IntegrationStatus::Integrated)
    }

    /// Whether the status is `Mapped`.
    pub fn is_mapped(&self) -> (r: bool)
        ensures
            r == (self is Mapped),
    {
        matches!(self, IntegrationStatus::Mapped)
    }

    /// Whether the status is `SinglePeriodIntegrated`.
    pub fn is_single_period_integrated(&self) -> (r: bool)
        ensures
            r == (self is SinglePeriodIntegrated),
    {
        matches!(self, IntegrationStatus::SinglePeriodIntegrated)
    }

    /// Whether the status is `Escaped`.
    pub fn is_escaped(&self) -> (r: bool)
        ensures
            r == (self is Escaped),
    {
        matches!(self, IntegrationStatus::Escaped)
    }

    /// Whether the status is `EvaluationNan`.
    pub fn is_evaluation_nan(&self) -> (r: bool)
        ensures
            r == (self is EvaluationNan),
    {
        matches!(self, IntegrationStatus::EvaluationNan)
    }

    /// Whether the status is `TimedOut`.
    pub fn is_timed_out(&self) -> (r: bool)
        ensures
            r == (self is TimedOut),
    {
        matches!(self, IntegrationStatus::TimedOut)
    }

    /// Whether the status is `InvalidIntersections`.
    pub fn is_invalid_intersections(&self) -> (r: bool)
        ensures
            r == (self is InvalidIntersections),
    {
        matches!(self, IntegrationStatus::InvalidIntersections)
    }

    /// Whether the status is `Failed`.
    pub fn is_failed(&self) -> (r: bool)
        ensures
            r == (self is Failed),
    {
        matches!(self, IntegrationStatus::Failed(_))
    }
}

/// The terminal status corresponding to an integration routine's error:
/// a domain error means the particle escaped, an exhausted step budget a
/// timeout, a failed accuracy check invalid intersections, and a NaN an
/// evaluation failure.
pub open spec fn status_of_error(error: ParticleError) -> IntegrationStatus {
    match error {
        ParticleError::EqError(_) => IntegrationStatus::Escaped,
        ParticleError::TimedOut => IntegrationStatus::TimedOut,
        ParticleError::IntersectionError => IntegrationStatus::InvalidIntersections,
        ParticleError::EvaluationNaN => IntegrationStatus::EvaluationNan,
    }
}

/// The particle's orbit type, derived from its θ-span.
#[derive(Debug, Clone, Copy)]
pub enum OrbitType {
    /// Not yet classified: no trajectory recorded.
    Undefined,
    /// The orbit is trapped (bounded θ excursion).
    Trapped,
    /// The orbit is passing (full θ circulation).
    Passing,
}

/// The orbit classification of a recorded θ series, at the specification
/// level: `Undefined` for an empty series; `Passing` when the span from
/// the first to the last stored θ exceeds `2π − 1e-7`, a full poloidal
/// circulation; `Trapped` otherwise.
pub open spec fn spec_orbit_type<T: Scalar>(thetas: Seq<T>) -> OrbitType {
    if thetas.len() == 0 {
        OrbitType::Undefined
    } else {
        let span = thetas.last().spec_minus(thetas[0]);
        let boundary = T::spec_pi().spec_plus(T::spec_pi()).spec_minus(
            T::spec_from_ratio(1, 10_000_000),
        );
        if boundary.spec_lt(span) {
            OrbitType::Passing
        } else {
            OrbitType::Trapped
        }
    }
}

impl Default for OrbitType {
    /// A fresh particle's orbit is `Undefined`.
    fn default() -> (r: Self)
        ensures
            r is Undefined,
    {
        OrbitType::Undefined
    }
}

/// Representation of a particle: a proton with `m = q = 1`, in normalized
/// units, inside an equilibrium consumed through the field-provider traits.
///
/// Created once per set of initial conditions and mutated in place by each
/// routine invocation: a routine resets [`Particle::evolution`] and
/// re-derives [`Particle::final_state`] and [`Particle::status`].
#[derive(Clone)]
pub struct Particle<T, A, C, H> {
    /// The set of initial conditions of the particle.
    pub initial_conditions: InitialConditions<T>,
    /// The initial [`State`] of the particle.
    pub initial_state: State<T, A, C, H>,
    /// The final [`State`] of the particle.
    pub final_state: State<T, A, C, H>,
    /// The time [`Evolution`] of the particle.
    pub evolution: Evolution<T>,
    /// Status of the particle's integration.
    pub status: IntegrationStatus,
    /// The orbit type.
    pub orbit_type: OrbitType,
    /// The particle's `ωθ`, `ωζ` and `qkinetic`.
    pub frequencies: Frequencies<T>,
}

impl<T: Scalar, A: Clone + Default, C: Clone + Default, H: Clone> Particle<T, A, C, H> {
    /// Creates a new [`Particle`] from a set of [`InitialConditions`].
    ///
    /// The particle starts `Initialized`, with an unclassified orbit, no
    /// frequencies, and its (unevaluated) initial state as the single
    /// stored entry of its evolution.
    pub fn new(initial_conditions: &InitialConditions<T>) -> (r: Self)
        ensures
            r.status is Initialized,
            r.orbit_type is Undefined,
            r.initial_conditions == *initial_conditions,
            r.initial_state.mu == initial_conditions.mu,
            r.initial_state.time == initial_conditions.time0,
            r.initial_state.theta == initial_conditions.theta0,
            r.initial_state.psip == initial_conditions.psip0,
            r.initial_state.rho == initial_conditions.rho0,
            r.initial_state.zeta == initial_conditions.zeta0,
            r.evolution.consistent(),
            r.evolution.steps_taken == 0,
            r.evolution.steps_stored == 1,
            r.evolution.time@.len() == 1 && r.evolution.time@[0] == initial_conditions.time0,
            r.evolution.theta@.len() == 1 && r.evolution.theta@[0] == initial_conditions.theta0,
            r.evolution.psip@.len() == 1 && r.evolution.psip@[0] == initial_conditions.psip0,
            r.evolution.rho@.len() == 1 && r.evolution.rho@[0] == initial_conditions.rho0,
            r.evolution.zeta@.len() == 1 && r.evolution.zeta@[0] == initial_conditions.zeta0,
            r.frequencies.omega_theta is None,
            r.frequencies.omega_zeta is None,
            r.frequencies.qkinetic is None,
    {
        let initial_state = State::from_initial(initial_conditions);
        let mut evolution = Evolution::default();
        evolution.push_state(&initial_state);

        Particle {
            initial_conditions: InitialConditions {
                time0: initial_conditions.time0,
                theta0: initial_conditions.theta0,
                psip0: initial_conditions.psip0,
                rho0: initial_conditions.rho0,
                zeta0: initial_conditions.zeta0,
                mu: initial_conditions.mu,
            },
            evolution,
            final_state: initial_state.branch(),
            initial_state,
            status: IntegrationStatus::Initialized,
            orbit_type: OrbitType::Undefined,
            frequencies: Frequencies::default(),
        }
    }

    /// Integrates the particle over the time window `t_eval`, storing the
    /// calculated orbit in [`Particle::evolution`].
    ///
    /// The status becomes `Integrated` on success, and otherwise the
    /// terminal status of the routine's error; a timeout commits the
    /// already-recorded evolution with exactly `max_steps` steps taken.
    /// The magnetic moment of the final state equals the initial one
    /// whenever the routine ran to a recorded end.
    pub fn integrate<Q: Qfactor<T, A>, Cu: Current<T, A>, B: Bfield<T, A, C>, P: Perturbation<
        T,
        A,
        H,
    >>(
        &mut self,
        qfactor: &Q,
        current: &Cu,
        bfield: &B,
        perturbation: &P,
        t_eval: (T, T),
        config: &IntegrationConfig<T>,
    )
        ensures
            final(self).initial_conditions == old(self).initial_conditions,
            final(self).initial_state.same_position(old(self).initial_state),
            final(self).frequencies == old(self).frequencies,
            final(self).evolution.consistent(),
            final(self).evolution.steps_taken <= config.max_steps,
            final(self).evolution.steps_stored == final(self).evolution.steps_taken,
            final(self).status is Integrated || final(self).status is Escaped || final(self).status is TimedOut || final(self).status is EvaluationNan,
            final(self).status is Integrated ==> final(self).final_state.evaluated@ && final(self).final_state.mu == old(self).initial_state.mu,
            final(self).status is TimedOut ==> final(self).evolution.steps_taken
                == config.max_steps && final(self).final_state.evaluated@ && final(self).final_state.mu == old(self).initial_state.mu,
            (final(self).status is Escaped || final(self).status is EvaluationNan) ==> final(self).final_state == old(self).final_state,
            final(self).status is Integrated ==> (final(self).evolution.time@.len() > 0
                && t_eval.1.spec_lt(final(self).evolution.time@.last())) || (final(self).evolution.time@.len() == 0 && t_eval.1.spec_lt(t_eval.0)),
            (final(self).status is Integrated || final(self).status is TimedOut) ==> forall|i: int|
                0 <= i < final(self).evolution.time@.len() - 1 ==> !t_eval.1.spec_lt(
                    #[trigger] final(self).evolution.time@[i],
                ),
            (final(self).status is Integrated || final(self).status is TimedOut) ==> final(self).evolution.energy_std == spec_relative_std(final(self).evolution.energy@),
            (final(self).status is Integrated || final(self).status is TimedOut) ==> (final(self).evolution.time@.len() > 0 ==> final(self).evolution.time@.last() == final(self).final_state.time),
    {
        match crate::integrate::integrate(
            self,
            qfactor,
            current,
            bfield,
            perturbation,
            t_eval,
            config,
        ) {
            Ok(()) => {
                self.status = IntegrationStatus::Integrated;
            },
            Err(error) => {
                self.set_status_from_error(error);
            },
        }
    }

    /// Integrates the particle, storing its intersections with the
    /// Poincaré surface defined by `params` in [`Particle::evolution`].
    ///
    /// The status becomes `Mapped` on success — with exactly
    /// `intersections + 1` stored entries and the stored intersection
    /// spacing within the configured threshold of 2π — and otherwise the
    /// terminal status of the routine's error.
    pub fn map<Q: Qfactor<T, A>, Cu: Current<T, A>, B: Bfield<T, A, C>, P: Perturbation<T, A, H>>(
        &mut self,
        qfactor: &Q,
        current: &Cu,
        bfield: &B,
        perturbation: &P,
        params: &MappingParameters<T>,
        config: &MappingConfig<T>,
    )
        requires
            params.intersections < usize::MAX,
        ensures
            final(self).initial_conditions == old(self).initial_conditions,
            final(self).initial_state.same_position(old(self).initial_state),
            final(self).frequencies == old(self).frequencies,
            final(self).evolution.consistent(),
            final(self).evolution.steps_taken <= config.max_steps,
            final(self).status is Mapped || final(self).status is Escaped || final(self).status is TimedOut || final(self).status is EvaluationNan || final(self).status is InvalidIntersections,
            final(self).status is Mapped ==> final(self).evolution.steps_stored
                == params.intersections + 1 && final(self).final_state.evaluated@ && final(self).final_state.mu == old(self).initial_state.mu,
            final(self).status is TimedOut ==> final(self).evolution.steps_taken
                == config.max_steps && final(self).final_state.mu == old(self).initial_state.mu,
            (final(self).status is Escaped || final(self).status is EvaluationNan || final(self).status is InvalidIntersections) ==> final(self).final_state == old(self).final_state,
            (final(self).status is Mapped || final(self).status is TimedOut) ==> final(self).evolution.energy_std == spec_relative_std(final(self).evolution.energy@),
    {
        match crate::map::map_integrate(
            self,
            qfactor,
            current,
            bfield,
            perturbation,
            params,
            config,
        ) {
            Ok(()) => {
                self.status = IntegrationStatus::Mapped;
            },
            Err(error) => {
                self.set_status_from_error(error);
            },
        }
    }

    /// Integrates the particle for one `θ-ψp` period, calculating its
    /// `ωθ`, `ωζ` and `qkinetic`. The orbit is stored in
    /// [`Particle::evolution`].
    ///
    /// The status becomes `SinglePeriodIntegrated` on success, in which
    /// case all three frequencies are present; otherwise it becomes the
    /// terminal status of the routine's error, and the frequencies that
    /// were not yet computed stay absent.
    pub fn single_period_integrate<Q: Qfactor<T, A>, Cu: Current<T, A>, B: Bfield<
        T,
        A,
        C,
    >, P: Perturbation<T, A, H>>(
        &mut self,
        qfactor: &Q,
        current: &Cu,
        bfield: &B,
        perturbation: &P,
        config: &SinglePeriodConfig<T>,
    )
        requires
            config.max_steps < usize::MAX,
        ensures
            final(self).initial_conditions == old(self).initial_conditions,
            final(self).initial_state.same_position(old(self).initial_state),
            final(self).evolution.consistent(),
            final(self).evolution.steps_taken <= config.max_steps,
            final(self).status is SinglePeriodIntegrated || final(self).status is Escaped || final(self).status is TimedOut || final(self).status is EvaluationNan,
            final(self).status is SinglePeriodIntegrated ==> final(self).frequencies.omega_theta is Some && final(self).frequencies.omega_zeta is Some
                && final(self).frequencies.qkinetic is Some && final(self).final_state.evaluated@
                && final(self).final_state.mu == old(self).initial_state.mu,
            final(self).status is SinglePeriodIntegrated ==> {
                let t_period = final(self).final_state.time.spec_minus(
                    old(self).initial_state.time,
                );
                let omega_theta = T::spec_pi().spec_plus(T::spec_pi()).spec_over(t_period);
                let omega_zeta = final(self).final_state.zeta.spec_minus(
                    old(self).initial_state.zeta,
                ).spec_over(t_period);
                &&& final(self).frequencies.omega_theta == Some(omega_theta)
                &&& final(self).frequencies.omega_zeta == Some(omega_zeta)
                &&& final(self).frequencies.qkinetic == Some(omega_zeta.spec_over(omega_theta))
                &&& final(self).evolution.steps_taken >= 2
                &&& final(self).evolution.time@.len() > 0
                &&& final(self).evolution.time@.last() == final(self).final_state.time
            },
            final(self).status is SinglePeriodIntegrated ==> final(self).evolution.energy_std
                == spec_relative_std(final(self).evolution.energy@),
            final(self).status is TimedOut ==> final(self).evolution.steps_taken
                == config.max_steps,
            !(final(self).status is SinglePeriodIntegrated) ==> final(self).final_state == old(self).final_state,
    {
        match crate::single_period::close_theta_period(
            self,
            qfactor,
            current,
            bfield,
            perturbation,
            config,
        ) {
            Ok(()) => {
                self.status = IntegrationStatus::SinglePeriodIntegrated;
            },
            Err(error) => {
                self.set_status_from_error(error);
            },
        }
    }

    /// Classifies the particle's orbit type from the recorded θ-span:
    /// `Passing` when the trajectory circulated a full 2π in θ (up to a
    /// threshold of 1e-7), `Trapped` otherwise, and `Undefined` when
    /// nothing is recorded.
    pub(crate) fn calculate_orbit_type(&mut self)
        ensures
            final(self).orbit_type == spec_orbit_type(old(self).evolution.theta@),
            final(self).initial_conditions == old(self).initial_conditions,
            final(self).initial_state == old(self).initial_state,
            final(self).final_state == old(self).final_state,
            final(self).evolution == old(self).evolution,
            final(self).status == old(self).status,
            final(self).frequencies == old(self).frequencies,
    {
        let n = self.evolution.theta.len();
        if n == 0 {
            self.orbit_type = OrbitType::Undefined;
            return;
        }
        let theta0 = self.evolution.theta[0];
        let thetaf = self.evolution.theta[n - 1];
        let boundary = T::pi().plus(T::pi()).minus(T::from_ratio(1, 10_000_000));
        self.orbit_type = if boundary.lt(thetaf.minus(theta0)) {
            OrbitType::Passing
        } else {
            OrbitType::Trapped
        };
    }

    /// Sets the particle's [`IntegrationStatus`] from the error of an
    /// integration routine, leaving every other field untouched.
    pub(crate) fn set_status_from_error(&mut self, error: ParticleError)
        ensures
            final(self).status == status_of_error(error),
            final(self).initial_conditions == old(self).initial_conditions,
            final(self).initial_state == old(self).initial_state,
            final(self).final_state == old(self).final_state,
            final(self).evolution == old(self).evolution,
            final(self).orbit_type == old(self).orbit_type,
            final(self).frequencies == old(self).frequencies,
    {
        self.status = match error {
            ParticleError::EqError(_) => IntegrationStatus::Escaped,
            ParticleError::TimedOut => IntegrationStatus::TimedOut,
            ParticleError::IntersectionError => IntegrationStatus::InvalidIntersections,
            ParticleError::EvaluationNaN => IntegrationStatus::EvaluationNan,
        };
    }

    /// Returns the initial energy of the particle, calculated from its
    /// initial state.
    pub fn initial_energy(&self) -> (r: T)
        ensures
            r == self.initial_state.energy,
    {
        self.initial_state.energy()
    }

    /// Returns the final energy of the particle, calculated from its final
    /// state.
    pub fn final_energy(&self) -> (r: T)
        ensures
            r == self.final_state.energy,
    {
        self.final_state.energy()
    }
}

} // verus!
