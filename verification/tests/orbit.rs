//! End-to-end tests of the orbit core, instantiated at double precision.

use particle::{
    accuracy_check, calculate_intersection_state, calculate_mod_state1, intersected, Bfield,
    Current, FieldError, Frequencies, InitialConditions, IntegrationConfig, LarBfield, LarCurrent,
    MappingConfig, MappingParameters, NcBfieldBuilder, NcCurrentBuilder, NcGeometryBuilder,
    NcQfactorBuilder, Particle, Perturbation, PoincareSection, Qfactor, Scalar, SinglePeriodConfig,
    State, SteppingMethod, UnityQfactor,
};

/// Double-precision scalar for the generic core.
#[derive(Clone, Copy, Debug, PartialEq)]
struct F(f64);

impl Scalar for F {
    fn from_ratio(num: i64, den: i64) -> Self {
        F(num as f64 / den as f64)
    }
    fn from_count(n: usize) -> Self {
        F(n as f64)
    }
    fn pi() -> Self {
        F(std::f64::consts::PI)
    }
    fn nan() -> Self {
        F(f64::NAN)
    }
    fn plus(self, rhs: Self) -> Self {
        F(self.0 + rhs.0)
    }
    fn minus(self, rhs: Self) -> Self {
        F(self.0 - rhs.0)
    }
    fn times(self, rhs: Self) -> Self {
        F(self.0 * rhs.0)
    }
    fn over(self, rhs: Self) -> Self {
        F(self.0 / rhs.0)
    }
    fn neg(self) -> Self {
        F(-self.0)
    }
    fn abs(self) -> Self {
        F(self.0.abs())
    }
    fn signum(self) -> Self {
        F(self.0.signum())
    }
    fn sqrt(self) -> Self {
        F(self.0.sqrt())
    }
    fn powf(self, exponent: Self) -> Self {
        F(self.0.powf(exponent.0))
    }
    fn sin(self) -> Self {
        F(self.0.sin())
    }
    fn cos(self) -> Self {
        F(self.0.cos())
    }
    fn rem_euclid(self, modulus: Self) -> Self {
        F(self.0.rem_euclid(modulus.0))
    }
    fn max_with(self, other: Self) -> Self {
        F(self.0.max(other.0))
    }
    fn is_nan(self) -> bool {
        self.0.is_nan()
    }
    fn is_finite(self) -> bool {
        self.0.is_finite()
    }
    fn le(self, other: Self) -> bool {
        self.0 <= other.0
    }
    fn lt(self, other: Self) -> bool {
        self.0 < other.0
    }
    fn same_sign(self, other: Self) -> bool {
        self.0.signum() == other.0.signum()
    }

    // The specification companions of the operations above, as the
    // library's compiled form requires them; they are never called at run
    // time and are defined as the operations themselves.
    fn spec_from_ratio(num: i64, den: i64) -> Self {
        F(num as f64 / den as f64)
    }
    fn spec_from_count(n: usize) -> Self {
        F(n as f64)
    }
    fn spec_pi() -> Self {
        F(std::f64::consts::PI)
    }
    fn spec_plus(self, rhs: Self) -> Self {
        F(self.0 + rhs.0)
    }
    fn spec_minus(self, rhs: Self) -> Self {
        F(self.0 - rhs.0)
    }
    fn spec_times(self, rhs: Self) -> Self {
        F(self.0 * rhs.0)
    }
    fn spec_over(self, rhs: Self) -> Self {
        F(self.0 / rhs.0)
    }
    fn spec_neg(self) -> Self {
        F(-self.0)
    }
    fn spec_abs(self) -> Self {
        F(self.0.abs())
    }
    fn spec_signum(self) -> Self {
        F(self.0.signum())
    }
    fn spec_sqrt(self) -> Self {
        F(self.0.sqrt())
    }
    fn spec_powf(self, exponent: Self) -> Self {
        F(self.0.powf(exponent.0))
    }
    fn spec_sin(self) -> Self {
        F(self.0.sin())
    }
    fn spec_cos(self) -> Self {
        F(self.0.cos())
    }
    fn spec_rem_euclid(self, modulus: Self) -> Self {
        F(self.0.rem_euclid(modulus.0))
    }
    fn spec_max_with(self, other: Self) -> Self {
        F(self.0.max(other.0))
    }
    fn spec_is_nan(self) -> bool {
        self.0.is_nan()
    }
    fn spec_is_finite(self) -> bool {
        self.0.is_finite()
    }
    fn spec_le(self, other: Self) -> bool {
        self.0 <= other.0
    }
    fn spec_lt(self, other: Self) -> bool {
        self.0 < other.0
    }
    fn spec_same_sign(self, other: Self) -> bool {
        self.0.signum() == other.0.signum()
    }
}

/// Accelerator stub: the analytic backends keep no interpolation state.
#[derive(Clone, Copy, Debug, Default)]
struct Acc;

/// Two-dimensional interpolation cache stub.
#[derive(Clone, Copy, Debug, Default)]
struct Cache2d;

/// Harmonic cache stub.
#[derive(Clone, Copy, Debug)]
struct HCache;

/// A perturbation with no harmonics: `p = 0` identically.
struct ZeroPerturbation;

impl Perturbation<F, Acc, HCache> for ZeroPerturbation {
    fn p(
        &self,
        _psip: F,
        _theta: F,
        _zeta: F,
        _acc: &mut Acc,
        _caches: &mut Vec<HCache>,
    ) -> Result<F, FieldError> {
        Ok(F(0.0))
    }
    fn dp_dpsip(
        &self,
        _psip: F,
        _theta: F,
        _zeta: F,
        _acc: &mut Acc,
        _caches: &mut Vec<HCache>,
    ) -> Result<F, FieldError> {
        Ok(F(0.0))
    }
    fn dp_dtheta(
        &self,
        _psip: F,
        _theta: F,
        _zeta: F,
        _acc: &mut Acc,
        _caches: &mut Vec<HCache>,
    ) -> Result<F, FieldError> {
        Ok(F(0.0))
    }
    fn dp_dzeta(
        &self,
        _psip: F,
        _theta: F,
        _zeta: F,
        _acc: &mut Acc,
        _caches: &mut Vec<HCache>,
    ) -> Result<F, FieldError> {
        Ok(F(0.0))
    }
    fn dp_dt(
        &self,
        _psip: F,
        _theta: F,
        _zeta: F,
        _acc: &mut Acc,
        _caches: &mut Vec<HCache>,
    ) -> Result<F, FieldError> {
        Ok(F(0.0))
    }
    fn len(&self) -> usize {
        0
    }

    // The specification companions, as the library's compiled form
    // requires them; never called at run time.
    fn spec_p(&self, _psip: F, _theta: F, _zeta: F) -> Result<F, FieldError> {
        Ok(F(0.0))
    }
    fn spec_dp_dpsip(&self, _psip: F, _theta: F, _zeta: F) -> Result<F, FieldError> {
        Ok(F(0.0))
    }
    fn spec_dp_dtheta(&self, _psip: F, _theta: F, _zeta: F) -> Result<F, FieldError> {
        Ok(F(0.0))
    }
    fn spec_dp_dzeta(&self, _psip: F, _theta: F, _zeta: F) -> Result<F, FieldError> {
        Ok(F(0.0))
    }
    fn spec_dp_dt(&self, _psip: F, _theta: F, _zeta: F) -> Result<F, FieldError> {
        Ok(F(0.0))
    }
}

/// A magnetic field that reports a domain error everywhere, as a
/// reconstructed field does outside its grid.
struct WallBfield;

impl Bfield<F, Acc, Cache2d> for WallBfield {
    fn b(
        &self,
        _psip: F,
        _theta: F,
        _xacc: &mut Acc,
        _yacc: &mut Acc,
        _cache: &mut Cache2d,
    ) -> Result<F, FieldError> {
        Err(FieldError::Domain)
    }
    fn db_dpsip(
        &self,
        _psip: F,
        _theta: F,
        _xacc: &mut Acc,
        _yacc: &mut Acc,
        _cache: &mut Cache2d,
    ) -> Result<F, FieldError> {
        Err(FieldError::Domain)
    }
    fn db_dtheta(
        &self,
        _psip: F,
        _theta: F,
        _xacc: &mut Acc,
        _yacc: &mut Acc,
        _cache: &mut Cache2d,
    ) -> Result<F, FieldError> {
        Err(FieldError::Domain)
    }

    // The specification companions; never called at run time.
    fn spec_b(&self, _psip: F, _theta: F) -> Result<F, FieldError> {
        Err(FieldError::Domain)
    }
    fn spec_db_dpsip(&self, _psip: F, _theta: F) -> Result<F, FieldError> {
        Err(FieldError::Domain)
    }
    fn spec_db_dtheta(&self, _psip: F, _theta: F) -> Result<F, FieldError> {
        Err(FieldError::Domain)
    }
}

/// A magnetic field that evaluates to NaN, as corrupted data would.
struct NanBfield;

impl Bfield<F, Acc, Cache2d> for NanBfield {
    fn b(
        &self,
        _psip: F,
        _theta: F,
        _xacc: &mut Acc,
        _yacc: &mut Acc,
        _cache: &mut Cache2d,
    ) -> Result<F, FieldError> {
        Ok(F(f64::NAN))
    }
    fn db_dpsip(
        &self,
        _psip: F,
        _theta: F,
        _xacc: &mut Acc,
        _yacc: &mut Acc,
        _cache: &mut Cache2d,
    ) -> Result<F, FieldError> {
        Ok(F(f64::NAN))
    }
    fn db_dtheta(
        &self,
        _psip: F,
        _theta: F,
        _xacc: &mut Acc,
        _yacc: &mut Acc,
        _cache: &mut Cache2d,
    ) -> Result<F, FieldError> {
        Ok(F(f64::NAN))
    }

    // The specification companions; never called at run time.
    fn spec_b(&self, _psip: F, _theta: F) -> Result<F, FieldError> {
        Ok(F(f64::NAN))
    }
    fn spec_db_dpsip(&self, _psip: F, _theta: F) -> Result<F, FieldError> {
        Ok(F(f64::NAN))
    }
    fn spec_db_dtheta(&self, _psip: F, _theta: F) -> Result<F, FieldError> {
        Ok(F(f64::NAN))
    }
}

type LarParticle = Particle<F, Acc, Cache2d, HCache>;

fn lar_initial_conditions() -> InitialConditions<F> {
    InitialConditions {
        time0: F(0.0),
        theta0: F(0.0),
        psip0: F(0.05),
        rho0: F(1e-4),
        zeta0: F(0.0),
        mu: F(0.0),
    }
}

#[test]
fn test_particle_integration() {
    let qfactor = UnityQfactor;
    let current = LarCurrent;
    let bfield = LarBfield::new(&qfactor);
    let perturbation = ZeroPerturbation;
    let initial_conditions = lar_initial_conditions();

    // =================== Energy adaptive step

    let mut particle = LarParticle::new(&initial_conditions);
    let config = IntegrationConfig {
        method: SteppingMethod::EnergyAdaptiveStep,
        ..Default::default()
    };
    particle.integrate(
        &qfactor,
        &current,
        &bfield,
        &perturbation,
        (F(0.0), F(1e6)),
        &config,
    );
    assert!(particle.status.is_integrated());
    assert!(particle.final_energy().0.is_finite());
    // The orbit circulates many full turns in θ: a passing orbit.
    assert!(matches!(particle.orbit_type, particle::OrbitType::Passing));

    // =================== Error adaptive step

    let mut particle = LarParticle::new(&initial_conditions);
    let config = IntegrationConfig {
        method: SteppingMethod::ErrorAdaptiveStep,
        ..Default::default()
    };
    particle.integrate(
        &qfactor,
        &current,
        &bfield,
        &perturbation,
        (F(0.0), F(1e6)),
        &config,
    );
    assert!(particle.status.is_integrated());
    assert!(particle.final_energy().0.is_finite());
}

#[test]
fn test_timeout_commit() {
    let qfactor = UnityQfactor;
    let current = LarCurrent;
    let bfield = LarBfield::new(&qfactor);
    let perturbation = ZeroPerturbation;

    let mut particle = LarParticle::new(&lar_initial_conditions());
    assert!(particle.status.is_initialized());
    assert!(matches!(particle.orbit_type, particle::OrbitType::Undefined));
    assert_eq!(particle.evolution.steps_taken(), 0);
    assert_eq!(particle.evolution.steps_stored(), 1);
    let config = IntegrationConfig {
        max_steps: 100,
        ..Default::default()
    };
    particle.integrate(
        &qfactor,
        &current,
        &bfield,
        &perturbation,
        (F(0.0), F(1e10)),
        &config,
    );
    assert!(particle.status.is_timed_out());
    assert_eq!(particle.evolution.steps_taken(), 100);
    assert_eq!(particle.evolution.steps_stored(), 100);
    assert!(particle.final_energy().0.is_finite());

    particle.evolution.discard();
    assert_eq!(particle.evolution.steps_taken(), 100);
    assert_eq!(particle.evolution.time.len(), 0);
    assert_eq!(particle.evolution.energy.len(), 0);
}

#[test]
fn test_energy_conservation() {
    let qfactor = UnityQfactor;
    let current = LarCurrent;
    let bfield = LarBfield::new(&qfactor);
    let perturbation = ZeroPerturbation;

    let initial_conditions = InitialConditions {
        time0: F(0.0),
        theta0: F(1.0),
        psip0: F(0.05),
        rho0: F(0.01),
        zeta0: F(0.0),
        mu: F(0.0),
    };
    let mut particle = LarParticle::new(&initial_conditions);
    let config = IntegrationConfig {
        method: SteppingMethod::EnergyAdaptiveStep,
        safety_factor: F(0.3),
        energy_rel_tol: F(1e-10),
        energy_abs_tol: F(1e-18),
        ..Default::default()
    };
    particle.integrate(
        &qfactor,
        &current,
        &bfield,
        &perturbation,
        (F(0.0), F(1000.0)),
        &config,
    );
    assert!(particle.status.is_integrated());
    let initial_energy = particle.initial_energy().0;
    let final_energy = particle.final_energy().0;
    assert!(initial_energy.is_finite() && initial_energy > 0.0);
    assert!(
        (final_energy - initial_energy).abs() <= 1e-10 * initial_energy,
        "energy drifted: {} -> {}",
        initial_energy,
        final_energy,
    );
    assert!(particle.evolution.energy_std.0.is_finite());
}

#[test]
fn test_mu_invariance() {
    let qfactor = UnityQfactor;
    let current = LarCurrent;
    let bfield = LarBfield::new(&qfactor);
    let perturbation = ZeroPerturbation;

    let initial_conditions = InitialConditions {
        mu: F(0.371),
        ..lar_initial_conditions()
    };
    let mut particle = LarParticle::new(&initial_conditions);
    particle.integrate(
        &qfactor,
        &current,
        &bfield,
        &perturbation,
        (F(0.0), F(1e4)),
        &IntegrationConfig::default(),
    );
    assert_eq!(
        particle.initial_state.mu.0.to_bits(),
        0.371f64.to_bits(),
    );
    assert_eq!(
        particle.final_state.mu.0.to_bits(),
        0.371f64.to_bits(),
    );
}

#[test]
fn test_particle_mapping() {
    let qfactor = UnityQfactor;
    let current = LarCurrent;
    let bfield = LarBfield::new(&qfactor);
    let perturbation = ZeroPerturbation;
    let initial_conditions = lar_initial_conditions();

    // =================== Energy adaptive step

    let mut particle = LarParticle::new(&initial_conditions);
    let params = MappingParameters::new(PoincareSection::ConstTheta, F(0.0), 10);
    let config = MappingConfig {
        method: SteppingMethod::EnergyAdaptiveStep,
        ..Default::default()
    };
    particle.map(&qfactor, &current, &bfield, &perturbation, &params, &config);
    assert!(particle.status.is_mapped());
    assert_eq!(particle.evolution.steps_stored(), 11);
    assert!(particle.final_energy().0.is_finite());

    // =================== Intersection spacing

    let tau = std::f64::consts::TAU;
    let thetas: Vec<f64> = particle.evolution.theta.iter().map(|v| v.0).collect();
    assert_eq!(thetas.len(), 11);
    for window in thetas.windows(2).skip(1) {
        assert!(
            ((window[1] - window[0]).abs() - tau).abs() < 1e-9,
            "intersection spacing off: {} -> {}",
            window[0],
            window[1],
        );
    }

    // =================== Constant-ζ section

    let mut particle = LarParticle::new(&initial_conditions);
    let params = MappingParameters::new(PoincareSection::ConstZeta, F(0.0), 10);
    let config = MappingConfig::default();
    particle.map(&qfactor, &current, &bfield, &perturbation, &params, &config);
    assert!(particle.status.is_mapped());
    assert_eq!(particle.evolution.steps_stored(), 11);
    let zetas: Vec<f64> = particle.evolution.zeta.iter().map(|v| v.0).collect();
    for window in zetas.windows(2).skip(1) {
        assert!(((window[1] - window[0]).abs() - tau).abs() < 1e-9);
    }

    // =================== Few steps mapping

    let mut particle = LarParticle::new(&initial_conditions);
    let params = MappingParameters::new(PoincareSection::ConstTheta, F(0.0), 10);
    let config = MappingConfig {
        max_steps: 50,
        ..Default::default()
    };
    particle.map(&qfactor, &current, &bfield, &perturbation, &params, &config);
    assert!(particle.status.is_timed_out());
    assert_eq!(particle.evolution.steps_taken(), 50);
}

#[test]
fn test_particle_single_period_integration() {
    let qfactor = UnityQfactor;
    let current = LarCurrent;
    let bfield = LarBfield::new(&qfactor);
    let perturbation = ZeroPerturbation;

    let initial_conditions = InitialConditions {
        time0: F(0.0),
        theta0: F(2.0),
        psip0: F(0.05),
        rho0: F(1e-4),
        zeta0: F(0.0),
        mu: F(0.0),
    };
    let mut particle = LarParticle::new(&initial_conditions);
    let config = SinglePeriodConfig::default();
    particle.single_period_integrate(&qfactor, &current, &bfield, &perturbation, &config);
    assert!(particle.status.is_single_period_integrated());
    assert!(particle.final_energy().0.is_finite());
    let omega_theta = particle.frequencies.omega_theta().unwrap().0;
    let omega_zeta = particle.frequencies.omega_zeta().unwrap().0;
    let qkinetic = particle.frequencies.qkinetic().unwrap().0;
    assert!(omega_theta.is_finite());
    assert!(omega_zeta.is_finite());
    assert_eq!(qkinetic, omega_zeta / omega_theta);
}

#[test]
fn test_invalid_intersections_status() {
    let qfactor = UnityQfactor;
    let current = LarCurrent;
    let bfield = LarBfield::new(&qfactor);
    let perturbation = ZeroPerturbation;

    // A retrograde orbit (negative θ̇): the backward-direction landing of
    // the transform misses the surface by the step's angular distance, so
    // the completed map cannot pass the spacing check.
    let initial_conditions = InitialConditions {
        rho0: F(-1e-4),
        ..lar_initial_conditions()
    };
    let mut particle = LarParticle::new(&initial_conditions);
    let params = MappingParameters::new(PoincareSection::ConstTheta, F(0.0), 10);
    particle.map(
        &qfactor,
        &current,
        &bfield,
        &perturbation,
        &params,
        &MappingConfig::default(),
    );
    assert!(particle.status.is_invalid_intersections());
}

#[test]
fn test_escaped_status() {
    let qfactor = UnityQfactor;
    let current = LarCurrent;
    let bfield = WallBfield;
    let perturbation = ZeroPerturbation;

    let mut particle = LarParticle::new(&lar_initial_conditions());
    particle.integrate(
        &qfactor,
        &current,
        &bfield,
        &perturbation,
        (F(0.0), F(1.0)),
        &IntegrationConfig::default(),
    );
    assert!(particle.status.is_escaped());
}

#[test]
fn test_evaluation_nan_status() {
    let qfactor = UnityQfactor;
    let current = LarCurrent;
    let bfield = NanBfield;
    let perturbation = ZeroPerturbation;

    let mut particle = LarParticle::new(&lar_initial_conditions());
    particle.integrate(
        &qfactor,
        &current,
        &bfield,
        &perturbation,
        (F(0.0), F(1.0)),
        &IntegrationConfig::default(),
    );
    assert!(particle.status.is_evaluation_nan());
}

#[test]
fn test_henon_round_trip() {
    let qfactor = UnityQfactor;
    let current = LarCurrent;
    let bfield = LarBfield::new(&qfactor);
    let perturbation = ZeroPerturbation;

    // An evaluated state with a non-degenerate θ derivative.
    let initial_conditions = InitialConditions {
        time0: F(3.25),
        theta0: F(1.75),
        psip0: F(0.08),
        rho0: F(0.01),
        zeta0: F(0.5),
        mu: F(0.02),
    };
    let state: State<F, Acc, Cache2d, HCache> = State::from_initial(&initial_conditions);
    let state = state
        .into_evaluated(&qfactor, &current, &bfield, &perturbation)
        .unwrap();
    assert!(state.theta_dot.0 != 0.0);

    // Forward swap into the modified system, then straight back, with no
    // step in between: the coordinates return bit-identically.
    let params = MappingParameters::new(PoincareSection::ConstTheta, F(1.75), 1);
    let mod_state = calculate_mod_state1(&state, &params.section);
    assert_eq!(mod_state.time.0.to_bits(), state.theta.0.to_bits());
    assert_eq!(mod_state.theta.0.to_bits(), state.time.0.to_bits());
    let back = calculate_intersection_state(
        &qfactor,
        &current,
        &bfield,
        &perturbation,
        &params,
        mod_state,
    )
    .unwrap();
    assert_eq!(back.time.0.to_bits(), state.time.0.to_bits());
    assert_eq!(back.theta.0.to_bits(), state.theta.0.to_bits());
    assert_eq!(back.psip.0.to_bits(), state.psip.0.to_bits());
    assert_eq!(back.rho.0.to_bits(), state.rho.0.to_bits());
    assert_eq!(back.zeta.0.to_bits(), state.zeta.0.to_bits());
    assert_eq!(back.mu.0.to_bits(), state.mu.0.to_bits());
    // Re-evaluation at the same coordinates reproduces the derivatives.
    assert_eq!(back.theta_dot.0.to_bits(), state.theta_dot.0.to_bits());
    assert_eq!(back.psip_dot.0.to_bits(), state.psip_dot.0.to_bits());
    assert_eq!(back.energy.0.to_bits(), state.energy.0.to_bits());
}

#[test]
fn test_state_evaluation() {
    let qfactor = UnityQfactor;
    let current = LarCurrent;
    let bfield = LarBfield::new(&qfactor);
    let perturbation = ZeroPerturbation;

    // With ψp = 1/8 every quantity below is exactly representable:
    // B = 1 − √(2ψ)·cos 0 = 1/2, E = ρ²B²/2 + μB = 1/32 + 1/8 = 5/32,
    // Pθ = ψ + ρi = 1/8, Pζ = ρg − ψp = 3/8, and the derivatives are
    // θ̇ = ρB² + (μ + ρ²B)·∂B/∂ψp = 1/8 − 3/4 = −5/8, ψ̇p = ρ̇ = 0
    // (∂B/∂θ vanishes at θ = 0), ζ̇ = ρB² = 1/8.
    let initial_conditions = InitialConditions {
        time0: F(0.0),
        theta0: F(0.0),
        psip0: F(0.125),
        rho0: F(0.5),
        zeta0: F(0.0),
        mu: F(0.25),
    };
    let state: State<F, Acc, Cache2d, HCache> = State::from_initial(&initial_conditions);
    let state = state
        .into_evaluated(&qfactor, &current, &bfield, &perturbation)
        .unwrap();

    assert_eq!(state.energy.0, 0.15625);
    assert_eq!(state.psi.0, 0.125);
    assert_eq!(state.ptheta.0, 0.125);
    assert_eq!(state.pzeta.0, 0.375);
    assert_eq!(state.theta_dot.0, -0.625);
    assert_eq!(state.psip_dot.0, 0.0);
    assert_eq!(state.rho_dot.0, 0.0);
    assert_eq!(state.zeta_dot.0, 0.125);
    assert_eq!(state.mu.0, 0.25);
}

#[test]
fn test_intersected() {
    // No need to check negative numbers, since the signs negate each other.
    let eps = 1e-12;

    assert!(intersected(F(1.0 - eps), F(1.0 + eps), F(1.0)));
    assert!(intersected(F(1.0f64.next_down()), F(1.0f64.next_up()), F(1.0)));
    assert!(!intersected(F(1.0 - eps), F(1.0 - 2.0 * eps), F(1.0)));
    assert!(!intersected(F(1.0 + eps), F(1.0 + 2.0 * eps), F(1.0)));
    assert!(!intersected(F(1.0 - eps), F(1.0 - eps), F(1.0)));
    assert!(!intersected(F(1.0 + eps), F(1.0 + eps), F(1.0)));
    assert!(!intersected(F(1.0f64.next_down()), F(1.0f64.next_down()), F(1.0)));
    assert!(!intersected(F(1.0f64.next_up()), F(1.0f64.next_up()), F(1.0)));

    assert!(intersected(F(10.0 - eps), F(10.0 + eps), F(10.0)));
    assert!(intersected(F(10.0f64.next_down()), F(10.0f64.next_up()), F(10.0)));
    assert!(!intersected(F(10.0 - eps), F(10.0 - 2.0 * eps), F(10.0)));
    assert!(!intersected(F(10.0 + eps), F(10.0 + 2.0 * eps), F(10.0)));
    assert!(!intersected(F(10.0 - eps), F(10.0 - eps), F(10.0)));
    assert!(!intersected(F(10.0 + eps), F(10.0 + eps), F(10.0)));
    assert!(!intersected(F(10.0f64.next_down()), F(10.0f64.next_down()), F(10.0)));
    assert!(!intersected(F(10.0f64.next_up()), F(10.0f64.next_up()), F(10.0)));

    let pi = std::f64::consts::PI;
    assert!(intersected(F(pi - eps), F(pi + eps), F(pi)));
    assert!(intersected(F(pi.next_down()), F(pi.next_up()), F(pi)));
    assert!(!intersected(F(pi - eps), F(pi - 2.0 * eps), F(pi)));
    assert!(!intersected(F(pi + eps), F(pi + 2.0 * eps), F(pi)));
    assert!(!intersected(F(pi - eps), F(pi - eps), F(pi)));
    assert!(!intersected(F(pi + eps), F(pi + eps), F(pi)));
    assert!(!intersected(F(pi.next_down()), F(pi.next_down()), F(pi)));
    assert!(!intersected(F(pi.next_up()), F(pi.next_up()), F(pi)));

    let tau = std::f64::consts::TAU;
    assert!(intersected(F(tau - eps), F(tau + eps), F(tau)));
    assert!(intersected(F(tau.next_down()), F(tau.next_up()), F(tau)));
    assert!(!intersected(F(tau - eps), F(tau - 2.0 * eps), F(tau)));
    assert!(!intersected(F(tau + eps), F(tau + 2.0 * eps), F(tau)));
    assert!(!intersected(F(tau - eps), F(tau - eps), F(tau)));
    assert!(!intersected(F(tau + eps), F(tau + eps), F(tau)));
    assert!(!intersected(F(tau.next_down()), F(tau.next_down()), F(tau)));
    assert!(!intersected(F(tau.next_up()), F(tau.next_up()), F(tau)));

    assert!(intersected(F(0.0 - eps), F(0.0 + eps), F(0.0)));
    assert!(intersected(F(0.0f64.next_down()), F(0.0f64.next_up()), F(0.0)));
    assert!(!intersected(F(0.0 - eps), F(0.0 - 2.0 * eps), F(0.0)));
    assert!(!intersected(F(0.0 + eps), F(0.0 + 2.0 * eps), F(0.0)));
    assert!(!intersected(F(0.0 - eps), F(0.0 - eps), F(0.0)));
    assert!(!intersected(F(0.0 + eps), F(0.0 + eps), F(0.0)));

    assert!(intersected(
        F((2.0 * pi + pi).next_down()),
        F((2.0 * pi + pi).next_up()),
        F(pi),
    ));
    assert!(intersected(F(tau.next_down()), F(tau.next_up()), F(tau)));
    assert!(intersected(
        F((2.0 * pi + tau).next_down()),
        F((2.0 * pi + tau).next_up()),
        F(tau),
    ));

    assert!(!intersected(F(tau - eps), F(tau + eps), F(pi)));
    assert!(!intersected(F(pi - eps), F(pi + eps), F(tau)));
    assert!(!intersected(F(pi - eps), F(pi + eps), F(pi / 2.0)));
    assert!(!intersected(F(pi / 2.0 - eps), F(pi / 2.0 + eps), F(tau)));
}

#[test]
fn test_accuracy_check() {
    let tau = std::f64::consts::TAU;
    let config = MappingConfig::<F>::default();
    let ok1 = [
        F(0.0 * tau),
        F(1.0 * tau),
        F(2.0 * tau + 1e-12),
        F(3.0 * tau - 1e-12),
        F(4.0 * tau),
    ];
    let ok2 = [
        F(100.0),
        F(0.0 * tau),
        F(1.0 * tau),
        F(2.0 * tau + 1e-12),
        F(3.0 * tau - 1e-12),
        F(4.0 * tau),
    ];
    let ok3 = [
        F(1.0 + 0.0 * tau),
        F(1.0 + 1.0 * tau),
        F(1.0 + 2.0 * tau + 1e-12),
        F(1.0 + 3.0 * tau - 1e-12),
        F(1.0 + 4.0 * tau),
    ];

    assert!(accuracy_check(&ok1, &config).is_ok());
    assert!(accuracy_check(&ok2, &config).is_ok());
    assert!(accuracy_check(&ok3, &config).is_ok());

    let not_ok1 = [
        F(0.0 * tau),
        F(1.0 * tau),
        F(3.0 * tau - 1e-12),
        F(4.0 * tau),
    ];
    let not_ok2 = [
        F(100.0),
        F(0.0 * tau),
        F(1.0 * tau),
        F(3.0 * tau - 1e-12),
        F(4.0 * tau),
    ];
    let not_ok3 = [
        F(100.0),
        F(1.0 * tau),
        F(2.0 * tau),
        F(3.0 * tau + 1.0),
        F(4.0 * tau),
        F(5.0 * tau),
    ];

    assert!(accuracy_check(&not_ok1, &config).is_err());
    assert!(accuracy_check(&not_ok2, &config).is_err());
    assert!(accuracy_check(&not_ok3, &config).is_err());
}

#[test]
fn test_frequencies_update_default() {
    let mut freq = Frequencies::<F>::default();

    assert!(freq.omega_theta().is_none());
    assert!(freq.omega_zeta().is_none());
    assert!(freq.qkinetic().is_none());

    freq.update_omega_theta(F(2.0));

    assert_eq!(freq.omega_theta().unwrap().0, 2.0);
    assert!(freq.omega_zeta().is_none());
    assert!(freq.qkinetic().is_none());

    freq.update_omega_zeta(F(20.0));

    assert_eq!(freq.omega_theta().unwrap().0, 2.0);
    assert_eq!(freq.omega_zeta().unwrap().0, 20.0);
    assert_eq!(freq.qkinetic().unwrap().0, 10.0);

    freq.update_omega_theta(F(4.0));

    assert_eq!(freq.omega_theta().unwrap().0, 4.0);
    assert_eq!(freq.omega_zeta().unwrap().0, 20.0);
    assert_eq!(freq.qkinetic().unwrap().0, 5.0);

    freq.update_omega_zeta(F(100.0));

    assert_eq!(freq.omega_theta().unwrap().0, 4.0);
    assert_eq!(freq.omega_zeta().unwrap().0, 100.0);
    assert_eq!(freq.qkinetic().unwrap().0, 25.0);
}

#[test]
fn test_mapping_parameters_normalization() {
    let tau = std::f64::consts::TAU;
    let params = MappingParameters::new(PoincareSection::ConstTheta, F(-1.0), 5);
    assert_eq!(params.alpha.0, (-1.0f64).rem_euclid(tau));
    assert_eq!(params.intersections, 5);
    let params = MappingParameters::new(PoincareSection::ConstZeta, F(7.0), 3);
    assert_eq!(params.alpha.0, 7.0f64.rem_euclid(tau));
}

#[test]
fn test_lar_field_values() {
    let qfactor = UnityQfactor;
    let current = LarCurrent;
    let bfield = LarBfield::new(&qfactor);
    let mut xacc = Acc;
    let mut yacc = Acc;
    let mut cache = Cache2d;

    // With the unity q-factor, ψ = ψp; at ψ = 0.08 and θ = 0 the field is
    // B = 1 − √0.16 = 0.6 exactly.
    let b = bfield
        .b(F(0.08), F(0.0), &mut xacc, &mut yacc, &mut cache)
        .unwrap();
    assert_eq!(b.0, 0.6);

    let q: F = qfactor.q(F(0.03), &mut xacc).unwrap();
    assert_eq!(q.0, 1.0);
    let psi: F = qfactor.psi(F(0.03), &mut xacc).unwrap();
    assert_eq!(psi.0, 0.03);

    let g: F = current.g(F(0.03), &mut xacc).unwrap();
    let i: F = current.i(F(0.03), &mut xacc).unwrap();
    assert_eq!(g.0, 1.0);
    assert_eq!(i.0, 0.0);
}

#[test]
fn test_analytic_derivatives() {
    let qfactor = UnityQfactor;
    let current = LarCurrent;
    let mut acc = Acc;

    let dpsi: F = qfactor.dpsi_dpsip(F(0.03), &mut acc).unwrap();
    assert_eq!(dpsi.0, 1.0);

    let dg: F = current.dg_dpsip(F(0.03), &mut acc).unwrap();
    let di: F = current.di_dpsip(F(0.03), &mut acc).unwrap();
    assert_eq!(dg.0, 0.0);
    assert_eq!(di.0, 0.0);
}

#[test]
fn test_builders_store_configuration() {
    let geometry = NcGeometryBuilder::new("lar_netcdf.nc", "steffen", "bicubic");
    assert_eq!(geometry.path, "lar_netcdf.nc");
    assert_eq!(geometry.typ1d, "steffen");
    assert_eq!(geometry.typ2d, "bicubic");

    let bfield = NcBfieldBuilder::new("lar_netcdf.nc", "bicubic");
    assert_eq!(bfield.path, "lar_netcdf.nc");
    assert_eq!(bfield.typ, "bicubic");

    let current = NcCurrentBuilder::new("lar_netcdf.nc", "steffen");
    assert_eq!(current.typ, "steffen");

    let qfactor = NcQfactorBuilder::new("lar_netcdf.nc", "steffen");
    assert_eq!(qfactor.typ, "steffen");
}
