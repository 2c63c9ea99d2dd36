//! Guiding-center orbit integration.
//!
//! This library advances the trajectory of a charged test particle (its
//! guiding center) through a magnetic-confinement equilibrium, and extracts
//! Poincaré-section intersections and orbit frequencies from that
//! trajectory. It provides:
//!
//! + the phase-space [`State`] of the particle and its evaluation against a
//!   field provider (the [`Qfactor`], [`Current`], [`Bfield`] and
//!   [`Perturbation`] capability traits);
//! + an embedded Runge–Kutta–Fehlberg (order 4/5) [`Stepper`] with two
//!   adaptive step-size policies;
//! + Hénon's coordinate-swap trick for landing exactly on a Poincaré
//!   surface;
//! + the three integration routines exposed by [`Particle`]: plain
//!   integration, Poincaré mapping, and single-period frequency closure.
//!
//! The core is generic over its scalar type (the [`Scalar`] trait), so its
//! structural guarantees — invariance of the magnetic moment, exactness of
//! the step accounting, the status state machine — are verified once for
//! every scalar an application may plug in.

mod analytic;
mod builders;
mod config;
mod error;
mod evolution;
mod field;
mod henon;
mod integrate;
mod map;
mod particle;
mod single_period;
mod scalar;
mod state;
mod stepper;

pub use analytic::{LarBfield, LarCurrent, UnityQfactor};
pub use builders::{NcBfieldBuilder, NcCurrentBuilder, NcGeometryBuilder, NcQfactorBuilder};
pub use config::{IntegrationConfig, MappingConfig, SinglePeriodConfig, StepperConfig, SteppingMethod};
pub use error::{FieldError, ParticleError};
pub use evolution::{spec_relative_std, spec_square_deviations, spec_sum, Evolution};
pub use field::{Bfield, Current, Perturbation, Qfactor};
pub use henon::{
    angle_swapped, calculate_intersection_state, calculate_mod_state1, calculate_mod_state2,
    calculate_mod_step, intersected, kappa_scaled, lemma_swap_round_trip, spec_intersected,
    spec_mod_step,
};
pub use map::{
    accuracy_check, check_mapping_accuracy, spec_section_series, spec_spacing_deviation,
    spec_spacing_within, MappingParameters, PoincareSection,
};
pub use particle::{spec_orbit_type, status_of_error, IntegrationStatus, OrbitType, Particle};
pub use single_period::{CrossingRecord, Frequencies};
pub use scalar::Scalar;
pub use state::{
    field_value, spec_dynamics_nan_free, spec_equations_of_motion, spec_evaluation_ok,
    spec_field_consistent, spec_provider_dynamics, spec_provider_ok, Dynamics, InitialConditions,
    State,
};
pub use stepper::{
    spec_added, spec_cascade_ok, spec_candidate_energy, spec_k1, spec_k2, spec_k3, spec_k4,
    spec_k5, spec_k6, spec_o2, spec_o3, spec_o4, spec_o5, spec_o6, spec_rkf_error_estimate,
    spec_rkf_weights, spec_scaled, spec_slopes_of, spec_start_energy, Slopes, Stepper,
    MAX_GROWTH_NUM, MIN_SHRINK_DEN,
};
