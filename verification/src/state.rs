//! The phase-space state of the particle.

use vstd::prelude::*;

use crate::error::{FieldError, ParticleError};
use crate::field::{Bfield, Current, Perturbation, Qfactor};
use crate::scalar::Scalar;

verus! {

/// A set of a particle's initial conditions.
#[derive(Clone, Debug)]
pub struct InitialConditions<T> {
    /// The initial time.
    pub time0: T,
    /// The initial `θ` angle.
    pub theta0: T,
    /// The initial poloidal magnetic flux `ψp`.
    pub psip0: T,
    /// The initial parallel gyroradius `ρ`.
    pub rho0: T,
    /// The initial `ζ` angle.
    pub zeta0: T,
    /// The magnetic moment `μ`.
    pub mu: T,
}

/// A point on the particle's trajectory.
///
/// A state is either *unevaluated* (its derivatives and energy are stale)
/// or *evaluated* (they are consistent with the field provider at
/// `(ψp, θ, ζ)`); the ghost flag [`State::evaluated`] records which.
/// Evaluation is explicit, and never moves the coordinates nor the magnetic
/// moment `μ`.
///
/// A state owns the mutable evaluation aids that make the next field
/// provider call cheap: two interpolation accelerators (one per
/// interpolated dimension), a two-dimensional interpolation cache, and an
/// ordered collection of per-harmonic value caches. They are opaque to this
/// core and must never be shared across concurrently-running particles.
#[derive(Clone)]
pub struct State<T, A, C, H> {
    /// The time `t`.
    pub time: T,
    /// The `θ` angle.
    pub theta: T,
    /// The poloidal magnetic flux `ψp`.
    pub psip: T,
    /// The parallel gyroradius `ρ`.
    pub rho: T,
    /// The `ζ` angle.
    pub zeta: T,
    /// The time derivative `dθ/dt`.
    pub theta_dot: T,
    /// The time derivative `dψp/dt`.
    pub psip_dot: T,
    /// The time derivative `dρ/dt`.
    pub rho_dot: T,
    /// The time derivative `dζ/dt`.
    pub zeta_dot: T,
    /// The magnetic moment `μ`, a constant of motion.
    pub mu: T,
    /// The toroidal flux `ψ(ψp)`.
    pub psi: T,
    /// The canonical momentum `Pθ = ψ + ρ i`.
    pub ptheta: T,
    /// The canonical momentum `Pζ = ρ g − ψp`.
    pub pzeta: T,
    /// The energy `E = ρ²B²/2 + μB + p`.
    pub energy: T,
    /// Whether the derivative and energy fields are consistent with the
    /// field provider at the current coordinates.
    pub evaluated: Ghost<bool>,
    /// The interpolation accelerator of the `ψp` dimension.
    pub xacc: A,
    /// The interpolation accelerator of the `θ` dimension.
    pub yacc: A,
    /// The cache of the two-dimensional field interpolation.
    pub cache: C,
    /// The per-harmonic value caches of the perturbation, one per harmonic.
    pub hcache: Vec<H>,
}

/// The value inside an `Ok` field-provider result.
pub open spec fn field_value<T>(r: Result<T, FieldError>) -> T
    recommends
        r is Ok,
{
    r->Ok_0
}

/// The guiding-center equations of motion at one point, at the
/// specification level, over the field provider's values there.
///
/// With the Hamiltonian `H = ρ²B²/2 + μB + p` and
/// `D = gq + i + ρ(g·di − i·dg)`, the four time derivatives are
///
/// ```text
/// θ̇  = (ρB²(1 − ρ·dg) + g ∂H/∂ψp) / D
/// ψ̇p = (i ∂H/∂ζ − g ∂H/∂θ) / D
/// ρ̇  = ((ρ·dg − 1) ∂H/∂θ − (q + ρ·di) ∂H/∂ζ) / D
/// ζ̇  = (ρB²(q + ρ·di) − i ∂H/∂ψp) / D
/// ```
///
/// and the momenta are `Pθ = ψ + ρi`, `Pζ = ρg − ψp`.
#[allow(clippy::too_many_arguments)]
pub open spec fn spec_equations_of_motion<T: Scalar>(
    psip: T,
    rho: T,
    mu: T,
    b: T,
    db_dpsip: T,
    db_dtheta: T,
    g: T,
    i: T,
    dg: T,
    di: T,
    q: T,
    psi: T,
    p: T,
    dp_dpsip: T,
    dp_dtheta: T,
    dp_dzeta: T,
) -> Dynamics<T> {
    let one = T::spec_from_ratio(1, 1);
    let two = T::spec_from_ratio(2, 1);
    let rho_b = rho.spec_times(b);
    let parallel_energy = rho_b.spec_times(rho_b).spec_over(two);
    let energy = parallel_energy.spec_plus(mu.spec_times(b)).spec_plus(p);
    let mu_rho2b = mu.spec_plus(rho.spec_times(rho).spec_times(b));
    let dh_dpsip = mu_rho2b.spec_times(db_dpsip).spec_plus(dp_dpsip);
    let dh_dtheta = mu_rho2b.spec_times(db_dtheta).spec_plus(dp_dtheta);
    let dh_dzeta = dp_dzeta;
    let dh_drho = rho.spec_times(b).spec_times(b);
    let d = g.spec_times(q).spec_plus(i).spec_plus(
        rho.spec_times(g.spec_times(di).spec_minus(i.spec_times(dg))),
    );
    Dynamics {
        theta_dot: dh_drho.spec_times(one.spec_minus(rho.spec_times(dg))).spec_plus(
            g.spec_times(dh_dpsip),
        ).spec_over(d),
        psip_dot: i.spec_times(dh_dzeta).spec_minus(g.spec_times(dh_dtheta)).spec_over(d),
        rho_dot: (rho.spec_times(dg).spec_minus(one)).spec_times(dh_dtheta).spec_minus(
            q.spec_plus(rho.spec_times(di)).spec_times(dh_dzeta),
        ).spec_over(d),
        zeta_dot: dh_drho.spec_times(q.spec_plus(rho.spec_times(di))).spec_minus(
            i.spec_times(dh_dpsip),
        ).spec_over(d),
        psi: psi,
        ptheta: psi.spec_plus(rho.spec_times(i)),
        pzeta: rho.spec_times(g).spec_minus(psip),
        energy: energy,
    }
}

/// Whether the field provider yields every quantity the equations of
/// motion need at the given point.
pub open spec fn spec_provider_ok<T: Scalar, A, C, H, Q: Qfactor<T, A>, Cu: Current<T, A>, B: Bfield<
    T,
    A,
    C,
>, P: Perturbation<T, A, H>>(psip: T, theta: T, zeta: T, qfactor: Q, current: Cu, bfield: B, perturbation: P) -> bool {
    &&& bfield.spec_b(psip, theta) is Ok
    &&& bfield.spec_db_dpsip(psip, theta) is Ok
    &&& bfield.spec_db_dtheta(psip, theta) is Ok
    &&& current.spec_g(psip) is Ok
    &&& current.spec_i(psip) is Ok
    &&& current.spec_dg_dpsip(psip) is Ok
    &&& current.spec_di_dpsip(psip) is Ok
    &&& qfactor.spec_q(psip) is Ok
    &&& qfactor.spec_psi(psip) is Ok
    &&& perturbation.spec_p(psip, theta, zeta) is Ok
    &&& perturbation.spec_dp_dpsip(psip, theta, zeta) is Ok
    &&& perturbation.spec_dp_dtheta(psip, theta, zeta) is Ok
    &&& perturbation.spec_dp_dzeta(psip, theta, zeta) is Ok
}

/// The dynamics the field provider yields at the given point, assuming it
/// yields them all: the equations of motion over the provider's values.
pub open spec fn spec_provider_dynamics<T: Scalar, A, C, H, Q: Qfactor<T, A>, Cu: Current<
    T,
    A,
>, B: Bfield<T, A, C>, P: Perturbation<T, A, H>>(
    psip: T,
    theta: T,
    zeta: T,
    rho: T,
    mu: T,
    qfactor: Q,
    current: Cu,
    bfield: B,
    perturbation: P,
) -> Dynamics<T> {
    spec_equations_of_motion(
        psip,
        rho,
        mu,
        field_value(bfield.spec_b(psip, theta)),
        field_value(bfield.spec_db_dpsip(psip, theta)),
        field_value(bfield.spec_db_dtheta(psip, theta)),
        field_value(current.spec_g(psip)),
        field_value(current.spec_i(psip)),
        field_value(current.spec_dg_dpsip(psip)),
        field_value(current.spec_di_dpsip(psip)),
        field_value(qfactor.spec_q(psip)),
        field_value(qfactor.spec_psi(psip)),
        field_value(perturbation.spec_p(psip, theta, zeta)),
        field_value(perturbation.spec_dp_dpsip(psip, theta, zeta)),
        field_value(perturbation.spec_dp_dtheta(psip, theta, zeta)),
        field_value(perturbation.spec_dp_dzeta(psip, theta, zeta)),
    )
}

/// Whether the computed dynamics are free of NaN in every component the
/// evaluation checks: the four time derivatives and the energy.
pub open spec fn spec_dynamics_nan_free<T: Scalar>(d: Dynamics<T>) -> bool {
    &&& !d.theta_dot.spec_is_nan()
    &&& !d.psip_dot.spec_is_nan()
    &&& !d.rho_dot.spec_is_nan()
    &&& !d.zeta_dot.spec_is_nan()
    &&& !d.energy.spec_is_nan()
}

/// Whether an evaluation at the given point succeeds: the field provider
/// yields every quantity there, and no checked component of the resulting
/// dynamics is a NaN.
pub open spec fn spec_evaluation_ok<T: Scalar, A, C, H, Q: Qfactor<T, A>, Cu: Current<T, A>, B: Bfield<
    T,
    A,
    C,
>, P: Perturbation<T, A, H>>(
    psip: T,
    theta: T,
    zeta: T,
    rho: T,
    mu: T,
    qfactor: Q,
    current: Cu,
    bfield: B,
    perturbation: P,
) -> bool {
    &&& spec_provider_ok(psip, theta, zeta, qfactor, current, bfield, perturbation)
    &&& spec_dynamics_nan_free(
        spec_provider_dynamics(psip, theta, zeta, rho, mu, qfactor, current, bfield, perturbation),
    )
}

/// The evaluated-state invariant of the data model: the state's
/// derivative, flux, momentum and energy fields equal the equations of
/// motion at its own coordinates, as the field provider gives them.
pub open spec fn spec_field_consistent<T: Scalar, A, C, H, Q: Qfactor<T, A>, Cu: Current<
    T,
    A,
>, B: Bfield<T, A, C>, P: Perturbation<T, A, H>>(
    s: State<T, A, C, H>,
    qfactor: Q,
    current: Cu,
    bfield: B,
    perturbation: P,
) -> bool {
    let d = spec_provider_dynamics(
        s.psip,
        s.theta,
        s.zeta,
        s.rho,
        s.mu,
        qfactor,
        current,
        bfield,
        perturbation,
    );
    &&& s.theta_dot == d.theta_dot
    &&& s.psip_dot == d.psip_dot
    &&& s.rho_dot == d.rho_dot
    &&& s.zeta_dot == d.zeta_dot
    &&& s.psi == d.psi
    &&& s.ptheta == d.ptheta
    &&& s.pzeta == d.pzeta
    &&& s.energy == d.energy
}

/// The dynamical quantities the field provider yields at one point: the
/// four time derivatives of the equations of motion, the toroidal flux,
/// the canonical momenta and the energy.
pub struct Dynamics<T> {
    /// The time derivative `dθ/dt`.
    pub theta_dot: T,
    /// The time derivative `dψp/dt`.
    pub psip_dot: T,
    /// The time derivative `dρ/dt`.
    pub rho_dot: T,
    /// The time derivative `dζ/dt`.
    pub zeta_dot: T,
    /// The toroidal flux `ψ(ψp)`.
    pub psi: T,
    /// The canonical momentum `Pθ`.
    pub ptheta: T,
    /// The canonical momentum `Pζ`.
    pub pzeta: T,
    /// The energy.
    pub energy: T,
}

impl<T: Scalar, A, C, H> State<T, A, C, H> {
    /// The two states agree on every scalar field and on the evaluation
    /// flag; only the opaque evaluation aids may differ.
    pub open spec fn same_scalars(self, other: Self) -> bool {
        &&& self.time == other.time
        &&& self.theta == other.theta
        &&& self.psip == other.psip
        &&& self.rho == other.rho
        &&& self.zeta == other.zeta
        &&& self.theta_dot == other.theta_dot
        &&& self.psip_dot == other.psip_dot
        &&& self.rho_dot == other.rho_dot
        &&& self.zeta_dot == other.zeta_dot
        &&& self.mu == other.mu
        &&& self.psi == other.psi
        &&& self.ptheta == other.ptheta
        &&& self.pzeta == other.pzeta
        &&& self.energy == other.energy
        &&& self.evaluated == other.evaluated
    }

    /// The two states agree on the five coordinates and on `μ`.
    pub open spec fn same_position(self, other: Self) -> bool {
        &&& self.time == other.time
        &&& self.theta == other.theta
        &&& self.psip == other.psip
        &&& self.rho == other.rho
        &&& self.zeta == other.zeta
        &&& self.mu == other.mu
    }

    /// Creates an unevaluated [`State`] from a set of [`InitialConditions`],
    /// with fresh evaluation aids.
    pub fn from_initial(initial_conditions: &InitialConditions<T>) -> (r: Self) where
        A: Default,
        C: Default,

        ensures
            r.time == initial_conditions.time0,
            r.theta == initial_conditions.theta0,
            r.psip == initial_conditions.psip0,
            r.rho == initial_conditions.rho0,
            r.zeta == initial_conditions.zeta0,
            r.mu == initial_conditions.mu,
            !r.evaluated@,
    {
        let zero = T::from_ratio(0, 1);
        State {
            time: initial_conditions.time0,
            theta: initial_conditions.theta0,
            psip: initial_conditions.psip0,
            rho: initial_conditions.rho0,
            zeta: initial_conditions.zeta0,
            theta_dot: zero,
            psip_dot: zero,
            rho_dot: zero,
            zeta_dot: zero,
            mu: initial_conditions.mu,
            psi: zero,
            ptheta: zero,
            pzeta: zero,
            energy: zero,
            evaluated: Ghost(false),
            xacc: A::default(),
            yacc: A::default(),
            cache: C::default(),
            hcache: Vec::new(),
        }
    }

    /// The energy of the state, as of its last evaluation.
    pub fn energy(&self) -> (r: T)
        ensures
            r == self.energy,
    {
        self.energy
    }

    /// Clones the state to branch the trajectory, aids included.
    ///
    /// Every scalar field of the branch equals the original's; in
    /// particular the magnetic moment `μ` is carried over bit-identically.
    pub fn branch(&self) -> (r: Self) where A: Clone, C: Clone, H: Clone
        ensures
            r.same_scalars(*self),
    {
        State {
            time: self.time,
            theta: self.theta,
            psip: self.psip,
            rho: self.rho,
            zeta: self.zeta,
            theta_dot: self.theta_dot,
            psip_dot: self.psip_dot,
            rho_dot: self.rho_dot,
            zeta_dot: self.zeta_dot,
            mu: self.mu,
            psi: self.psi,
            ptheta: self.ptheta,
            pzeta: self.pzeta,
            energy: self.energy,
            evaluated: self.evaluated,
            xacc: self.xacc.clone(),
            yacc: self.yacc.clone(),
            cache: self.cache.clone(),
            hcache: self.hcache.clone(),
        }
    }

    /// Evaluates the guiding-center equations of motion at the given
    /// coordinates, using this state's evaluation aids (and warming them as
    /// a side effect). No scalar field of the state changes.
    ///
    /// With `B(ψp, θ)`, currents `g(ψp)`, `i(ψp)`, safety factor `q(ψp)`
    /// and perturbation `p(ψp, θ, ζ)`, the Hamiltonian is
    /// `H = ρ²B²/2 + μB + p` and the equations of motion in Boozer
    /// coordinates are, with `D = gq + i + ρ(g i′ − i g′)`:
    ///
    /// ```text
    /// θ̇  = (ρB²(1 − ρg′) + g ∂H/∂ψp) / D
    /// ζ̇  = (ρB²(q + ρi′) − i ∂H/∂ψp) / D
    /// ψ̇p = (i ∂H/∂ζ − g ∂H/∂θ) / D
    /// ρ̇  = ((ρg′ − 1) ∂H/∂θ − (q + ρi′) ∂H/∂ζ) / D
    /// ```
    ///
    /// The canonical momenta are `Pθ = ψ + ρi` and `Pζ = ρg − ψp`.
    #[allow(clippy::too_many_arguments)]
    pub(crate) fn dynamics_at<Q: Qfactor<T, A>, Cu: Current<T, A>, B: Bfield<T, A, C>, P: Perturbation<
        T,
        A,
        H,
    >>(
        &mut self,
        theta: T,
        psip: T,
        rho: T,
        zeta: T,
        qfactor: &Q,
        current: &Cu,
        bfield: &B,
        perturbation: &P,
    ) -> (r: Result<Dynamics<T>, FieldError>)
        ensures
            final(self).same_scalars(*old(self)),
            r is Ok <==> spec_provider_ok(
                psip,
                theta,
                zeta,
                *qfactor,
                *current,
                *bfield,
                *perturbation,
            ),
            r matches Ok(d) ==> d == spec_provider_dynamics(
                psip,
                theta,
                zeta,
                rho,
                old(self).mu,
                *qfactor,
                *current,
                *bfield,
                *perturbation,
            ),
    {
        let mu = self.mu;
        let b = bfield.b(psip, theta, &mut self.xacc, &mut self.yacc, &mut self.cache)?;
        let db_dpsip = bfield.db_dpsip(psip, theta, &mut self.xacc, &mut self.yacc, &mut self.cache)?;
        let db_dtheta = bfield.db_dtheta(
            psip,
            theta,
            &mut self.xacc,
            &mut self.yacc,
            &mut self.cache,
        )?;
        let g = current.g(psip, &mut self.xacc)?;
        let i = current.i(psip, &mut self.xacc)?;
        let dg = current.dg_dpsip(psip, &mut self.xacc)?;
        let di = current.di_dpsip(psip, &mut self.xacc)?;
        let q = qfactor.q(psip, &mut self.xacc)?;
        let psi = qfactor.psi(psip, &mut self.xacc)?;
        let p = perturbation.p(psip, theta, zeta, &mut self.xacc, &mut self.hcache)?;
        let dp_dpsip = perturbation.dp_dpsip(psip, theta, zeta, &mut self.xacc, &mut self.hcache)?;
        let dp_dtheta = perturbation.dp_dtheta(psip, theta, zeta, &mut self.xacc, &mut self.hcache)?;
        let dp_dzeta = perturbation.dp_dzeta(psip, theta, zeta, &mut self.xacc, &mut self.hcache)?;

        let one = T::from_ratio(1, 1);
        let two = T::from_ratio(2, 1);

        let rho_b = rho.times(b);
        let parallel_energy = rho_b.times(rho_b).over(two);
        let energy = parallel_energy.plus(mu.times(b)).plus(p);

        // ∂H/∂ψp, ∂H/∂θ, ∂H/∂ζ and ∂H/∂ρ at fixed (ρ, μ).
        let mu_rho2b = mu.plus(rho.times(rho).times(b));
        let dh_dpsip = mu_rho2b.times(db_dpsip).plus(dp_dpsip);
        let dh_dtheta = mu_rho2b.times(db_dtheta).plus(dp_dtheta);
        let dh_dzeta = dp_dzeta;
        let dh_drho = rho.times(b).times(b);

        let d = g.times(q).plus(i).plus(rho.times(g.times(di).minus(i.times(dg))));

        let theta_dot = dh_drho.times(one.minus(rho.times(dg))).plus(g.times(dh_dpsip)).over(d);
        let zeta_dot = dh_drho.times(q.plus(rho.times(di))).minus(i.times(dh_dpsip)).over(d);
        let psip_dot = i.times(dh_dzeta).minus(g.times(dh_dtheta)).over(d);
        let rho_dot = (rho.times(dg).minus(one)).times(dh_dtheta).minus(
            q.plus(rho.times(di)).times(dh_dzeta),
        ).over(d);

        let ptheta = psi.plus(rho.times(i));
        let pzeta = rho.times(g).minus(psip);

        Ok(
            Dynamics {
                theta_dot,
                psip_dot,
                rho_dot,
                zeta_dot,
                psi,
                ptheta,
                pzeta,
                energy,
            },
        )
    }

    /// Evaluates the state against the field provider: recomputes the four
    /// time derivatives, the toroidal flux, the canonical momenta and the
    /// energy at the current coordinates.
    ///
    /// The coordinates and the magnetic moment `μ` are never changed. Fails
    /// with [`ParticleError::EqError`] when the coordinates fall outside
    /// the provider's region, and with [`ParticleError::EvaluationNaN`]
    /// when a computed derivative or the energy is a NaN.
    pub fn evaluate<Q: Qfactor<T, A>, Cu: Current<T, A>, B: Bfield<T, A, C>, P: Perturbation<
        T,
        A,
        H,
    >>(
        &mut self,
        qfactor: &Q,
        current: &Cu,
        bfield: &B,
        perturbation: &P,
    ) -> (r: Result<(), ParticleError>)
        ensures
            final(self).same_position(*old(self)),
            r is Ok ==> final(self).evaluated@,
            r is Err ==> final(self).same_scalars(*old(self)),
            r matches Err(e) ==> (e is EqError || e is EvaluationNaN),
            r is Ok <==> spec_evaluation_ok(
                old(self).psip,
                old(self).theta,
                old(self).zeta,
                old(self).rho,
                old(self).mu,
                *qfactor,
                *current,
                *bfield,
                *perturbation,
            ),
            r matches Err(e) ==> (e is EqError <==> !spec_provider_ok(
                old(self).psip,
                old(self).theta,
                old(self).zeta,
                *qfactor,
                *current,
                *bfield,
                *perturbation,
            )),
            r is Ok ==> spec_field_consistent(
                *final(self),
                *qfactor,
                *current,
                *bfield,
                *perturbation,
            ),
    {
        let theta = self.theta;
        let psip = self.psip;
        let rho = self.rho;
        let zeta = self.zeta;
        let dynamics = match self.dynamics_at(
            theta,
            psip,
            rho,
            zeta,
            qfactor,
            current,
            bfield,
            perturbation,
        ) {
            Ok(dynamics) => dynamics,
            Err(e) => {
                return Err(ParticleError::EqError(e));
            },
        };
        if dynamics.theta_dot.is_nan() || dynamics.psip_dot.is_nan() || dynamics.rho_dot.is_nan()
            || dynamics.zeta_dot.is_nan() || dynamics.energy.is_nan() {
            return Err(ParticleError::EvaluationNaN);
        }
        self.theta_dot = dynamics.theta_dot;
        self.psip_dot = dynamics.psip_dot;
        self.rho_dot = dynamics.rho_dot;
        self.zeta_dot = dynamics.zeta_dot;
        self.psi = dynamics.psi;
        self.ptheta = dynamics.ptheta;
        self.pzeta = dynamics.pzeta;
        self.energy = dynamics.energy;
        self.evaluated = Ghost(true);
        Ok(())
    }

    /// Evaluates the state, consuming and returning it.
    ///
    /// See [`State::evaluate`] for the error conditions.
    pub fn into_evaluated<Q: Qfactor<T, A>, Cu: Current<T, A>, B: Bfield<T, A, C>, P: Perturbation<
        T,
        A,
        H,
    >>(
        self,
        qfactor: &Q,
        current: &Cu,
        bfield: &B,
        perturbation: &P,
    ) -> (r: Result<Self, ParticleError>)
        ensures
            r matches Ok(s) ==> s.same_position(self) && s.evaluated@,
            r matches Err(e) ==> (e is EqError || e is EvaluationNaN),
            r is Ok <==> spec_evaluation_ok(
                self.psip,
                self.theta,
                self.zeta,
                self.rho,
                self.mu,
                *qfactor,
                *current,
                *bfield,
                *perturbation,
            ),
            r matches Err(e) ==> (e is EqError <==> !spec_provider_ok(
                self.psip,
                self.theta,
                self.zeta,
                *qfactor,
                *current,
                *bfield,
                *perturbation,
            )),
            r matches Ok(s) ==> spec_field_consistent(
                s,
                *qfactor,
                *current,
                *bfield,
                *perturbation,
            ),
    {
        let mut state = self;
        match state.evaluate(qfactor, current, bfield, perturbation) {
            Ok(()) => Ok(state),
            Err(e) => Err(e),
        }
    }
}

} // verus!
