//! Configuration of the integration routines.

use vstd::prelude::*;

use crate::scalar::Scalar;

verus! {

/// The method used to calculate the next optimal step size.
#[derive(Debug, Clone, Copy, PartialEq, Eq, Structural)]
pub enum SteppingMethod {
    /// Forces the step size to be small enough that the energy difference
    /// from step to step stays under a threshold, adjusted with the
    /// `energy_rel_tol` and `energy_abs_tol` fields.
    EnergyAdaptiveStep,
    /// Classic embedded Runge–Kutta error estimation: adjusts the step size
    /// to keep the local truncation error under a threshold, adjusted with
    /// the `error_rel_tol` and `error_abs_tol` fields.
    ErrorAdaptiveStep,
}

/// The subset of a routine configuration that the [`crate::Stepper`] needs.
pub trait StepperConfig<T: Scalar>: Sized {
    /// The configured stepping method, at the specification level.
    spec fn spec_method(&self) -> SteppingMethod;

    /// The configured safety factor, at the specification level.
    spec fn spec_safety_factor(&self) -> T;

    /// The configured relative energy tolerance, at the specification
    /// level.
    spec fn spec_energy_rel_tol(&self) -> T;

    /// The configured absolute energy tolerance, at the specification
    /// level.
    spec fn spec_energy_abs_tol(&self) -> T;

    /// The configured relative truncation-error tolerance, at the
    /// specification level.
    spec fn spec_error_rel_tol(&self) -> T;

    /// The configured absolute truncation-error tolerance, at the
    /// specification level.
    spec fn spec_error_abs_tol(&self) -> T;

    /// The optimal step calculation method.
    fn method(&self) -> (r: SteppingMethod)
        ensures
            r == self.spec_method(),
    ;

    /// The relative tolerance of the energy difference in every step.
    fn energy_rel_tol(&self) -> (r: T)
        ensures
            r == self.spec_energy_rel_tol(),
    ;

    /// The absolute tolerance of the energy difference in every step.
    fn energy_abs_tol(&self) -> (r: T)
        ensures
            r == self.spec_energy_abs_tol(),
    ;

    /// The relative tolerance of the local truncation error in every step.
    fn error_rel_tol(&self) -> (r: T)
        ensures
            r == self.spec_error_rel_tol(),
    ;

    /// The absolute tolerance of the local truncation error in every step.
    fn error_abs_tol(&self) -> (r: T)
        ensures
            r == self.spec_error_abs_tol(),
    ;

    /// The safety factor of the solver; should be less than one.
    fn safety_factor(&self) -> (r: T)
        ensures
            r == self.spec_safety_factor(),
    ;
}

/// Parameters of the [`crate::Particle::integrate`] routine.
///
/// See [`IntegrationConfig::default`] for the default values.
#[derive(Debug, Clone)]
pub struct IntegrationConfig<T> {
    /// The optimal step calculation method.
    pub method: SteppingMethod,
    /// The maximum number of steps a particle can make before its
    /// integration halts.
    pub max_steps: usize,
    /// The initial time step of the adaptive stepper. The value is
    /// empirical.
    pub first_step: T,
    /// The safety factor of the solver. Should be less than one.
    pub safety_factor: T,
    /// The relative tolerance of the energy difference in every step.
    pub energy_rel_tol: T,
    /// The absolute tolerance of the energy difference in every step.
    pub energy_abs_tol: T,
    /// The relative tolerance of the local truncation error in every step.
    pub error_rel_tol: T,
    /// The absolute tolerance of the local truncation error in every step.
    pub error_abs_tol: T,
}

impl<T: Scalar> Default for IntegrationConfig<T> {
    /// The default configuration: energy-adaptive stepping, a budget of one
    /// million steps, a first step of 0.1, a safety factor of 0.9, energy
    /// tolerances 1e-10 (relative) and 1e-12 (absolute), truncation-error
    /// tolerances 1e-12 (relative) and 1e-14 (absolute).
    fn default() -> (r: Self)
        ensures
            r.method is EnergyAdaptiveStep,
            r.max_steps == 1_000_000,
    {
        Self {
            method: SteppingMethod::EnergyAdaptiveStep,
            max_steps: 1_000_000,
            first_step: T::from_ratio(1, 10),
            safety_factor: T::from_ratio(9, 10),
            energy_rel_tol: T::from_ratio(1, 10_000_000_000),
            energy_abs_tol: T::from_ratio(1, 1_000_000_000_000),
            error_rel_tol: T::from_ratio(1, 1_000_000_000_000),
            error_abs_tol: T::from_ratio(1, 100_000_000_000_000),
        }
    }
}

impl<T: Scalar> StepperConfig<T> for IntegrationConfig<T> {
    open spec fn spec_method(&self) -> SteppingMethod {
        self.method
    }

    open spec fn spec_safety_factor(&self) -> T {
        self.safety_factor
    }

    open spec fn spec_energy_rel_tol(&self) -> T {
        self.energy_rel_tol
    }

    open spec fn spec_energy_abs_tol(&self) -> T {
        self.energy_abs_tol
    }

    open spec fn spec_error_rel_tol(&self) -> T {
        self.error_rel_tol
    }

    open spec fn spec_error_abs_tol(&self) -> T {
        self.error_abs_tol
    }

    fn method(&self) -> SteppingMethod {
        self.method
    }

    fn energy_rel_tol(&self) -> T {
        self.energy_rel_tol
    }

    fn energy_abs_tol(&self) -> T {
        self.energy_abs_tol
    }

    fn error_rel_tol(&self) -> T {
        self.error_rel_tol
    }

    fn error_abs_tol(&self) -> T {
        self.error_abs_tol
    }

    fn safety_factor(&self) -> T {
        self.safety_factor
    }
}

/// Parameters of the [`crate::Particle::map`] routine.
///
/// See [`MappingConfig::default`] for the default values.
#[derive(Debug, Clone)]
pub struct MappingConfig<T> {
    /// The optimal step calculation method.
    pub method: SteppingMethod,
    /// The maximum number of steps a particle can make before its
    /// integration halts.
    pub max_steps: usize,
    /// The initial time step of the adaptive stepper. The value is
    /// empirical.
    pub first_step: T,
    /// The safety factor of the solver. Should be less than one.
    pub safety_factor: T,
    /// The relative tolerance of the energy difference in every step.
    pub energy_rel_tol: T,
    /// The absolute tolerance of the energy difference in every step.
    pub energy_abs_tol: T,
    /// The relative tolerance of the local truncation error in every step.
    pub error_rel_tol: T,
    /// The absolute tolerance of the local truncation error in every step.
    pub error_abs_tol: T,
    /// The maximum allowed deviation from 2π of the difference of two
    /// consecutive intersection angles.
    pub map_threshold: T,
}

impl<T: Scalar> Default for MappingConfig<T> {
    /// The default configuration: the [`IntegrationConfig`] defaults plus a
    /// mapping threshold of 1e-9.
    fn default() -> (r: Self)
        ensures
            r.method is EnergyAdaptiveStep,
            r.max_steps == 1_000_000,
    {
        Self {
            method: SteppingMethod::EnergyAdaptiveStep,
            max_steps: 1_000_000,
            first_step: T::from_ratio(1, 10),
            safety_factor: T::from_ratio(9, 10),
            energy_rel_tol: T::from_ratio(1, 10_000_000_000),
            energy_abs_tol: T::from_ratio(1, 1_000_000_000_000),
            error_rel_tol: T::from_ratio(1, 1_000_000_000_000),
            error_abs_tol: T::from_ratio(1, 100_000_000_000_000),
            map_threshold: T::from_ratio(1, 1_000_000_000),
        }
    }
}

impl<T: Scalar> StepperConfig<T> for MappingConfig<T> {
    open spec fn spec_method(&self) -> SteppingMethod {
        self.method
    }

    open spec fn spec_safety_factor(&self) -> T {
        self.safety_factor
    }

    open spec fn spec_energy_rel_tol(&self) -> T {
        self.energy_rel_tol
    }

    open spec fn spec_energy_abs_tol(&self) -> T {
        self.energy_abs_tol
    }

    open spec fn spec_error_rel_tol(&self) -> T {
        self.error_rel_tol
    }

    open spec fn spec_error_abs_tol(&self) -> T {
        self.error_abs_tol
    }

    fn method(&self) -> SteppingMethod {
        self.method
    }

    fn energy_rel_tol(&self) -> T {
        self.energy_rel_tol
    }

    fn energy_abs_tol(&self) -> T {
        self.energy_abs_tol
    }

    fn error_rel_tol(&self) -> T {
        self.error_rel_tol
    }

    fn error_abs_tol(&self) -> T {
        self.error_abs_tol
    }

    fn safety_factor(&self) -> T {
        self.safety_factor
    }
}

/// Parameters of the [`crate::Particle::single_period_integrate`] routine.
///
/// See [`SinglePeriodConfig::default`] for the default values.
#[derive(Debug, Clone)]
pub struct SinglePeriodConfig<T> {
    /// The optimal step calculation method.
    pub method: SteppingMethod,
    /// The maximum number of steps a particle can make before its
    /// integration halts.
    pub max_steps: usize,
    /// The initial time step of the adaptive stepper. The value is
    /// empirical.
    pub first_step: T,
    /// The safety factor of the solver. Should be less than one.
    pub safety_factor: T,
    /// The relative tolerance of the energy difference in every step.
    pub energy_rel_tol: T,
    /// The absolute tolerance of the energy difference in every step.
    pub energy_abs_tol: T,
    /// The relative tolerance of the local truncation error in every step.
    pub error_rel_tol: T,
    /// The absolute tolerance of the local truncation error in every step.
    pub error_abs_tol: T,
}

impl<T: Scalar> Default for SinglePeriodConfig<T> {
    /// The default configuration: the same values as
    /// [`IntegrationConfig::default`].
    fn default() -> (r: Self)
        ensures
            r.method is EnergyAdaptiveStep,
            r.max_steps == 1_000_000,
    {
        Self {
            method: SteppingMethod::EnergyAdaptiveStep,
            max_steps: 1_000_000,
            first_step: T::from_ratio(1, 10),
            safety_factor: T::from_ratio(9, 10),
            energy_rel_tol: T::from_ratio(1, 10_000_000_000),
            energy_abs_tol: T::from_ratio(1, 1_000_000_000_000),
            error_rel_tol: T::from_ratio(1, 1_000_000_000_000),
            error_abs_tol: T::from_ratio(1, 100_000_000_000_000),
        }
    }
}

impl<T: Scalar> StepperConfig<T> for SinglePeriodConfig<T> {
    open spec fn spec_method(&self) -> SteppingMethod {
        self.method
    }

    open spec fn spec_safety_factor(&self) -> T {
        self.safety_factor
    }

    open spec fn spec_energy_rel_tol(&self) -> T {
        self.energy_rel_tol
    }

    open spec fn spec_energy_abs_tol(&self) -> T {
        self.energy_abs_tol
    }

    open spec fn spec_error_rel_tol(&self) -> T {
        self.error_rel_tol
    }

    open spec fn spec_error_abs_tol(&self) -> T {
        self.error_abs_tol
    }

    fn method(&self) -> SteppingMethod {
        self.method
    }

    fn energy_rel_tol(&self) -> T {
        self.energy_rel_tol
    }

    fn energy_abs_tol(&self) -> T {
        self.energy_abs_tol
    }

    fn error_rel_tol(&self) -> T {
        self.error_rel_tol
    }

    fn error_abs_tol(&self) -> T {
        self.error_abs_tol
    }

    fn safety_factor(&self) -> T {
        self.safety_factor
    }
}

} // verus!
