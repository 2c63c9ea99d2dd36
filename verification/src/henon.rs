//! Hénon's trick: exact landing on a Poincaré surface.
//!
//! Given two consecutive accepted states that straddle a target angle value
//! (θ = α or ζ = α), these functions compute the exact state at which the
//! angle equals α, without re-running the adaptive loop. The equations of
//! motion are re-expressed with the chosen angle as independent variable in
//! place of time (every other derivative is multiplied by `κ = 1/angle_dot`),
//! one stepper step of the exact remaining arc is taken on that modified
//! system, and the result is transformed back.

use vstd::prelude::*;

use crate::error::ParticleError;
use crate::field::{Bfield, Current, Perturbation, Qfactor};
use crate::map::{MappingParameters, PoincareSection};
use crate::scalar::Scalar;
use crate::state::{spec_evaluation_ok, spec_field_consistent, State};
use crate::stepper::{spec_cascade_ok, Stepper};

verus! {

/// The sign-change crossing test, at the specification level:
/// `sin((new−surface)/2) · sin((old−surface)/2) ≤ 0`.
pub open spec fn spec_intersected<T: Scalar>(old_angle: T, new_angle: T, surface_angle: T) -> bool {
    let two = T::spec_from_ratio(2, 1);
    let zero = T::spec_from_ratio(0, 1);
    new_angle.spec_minus(surface_angle).spec_over(two).spec_sin().spec_times(
        old_angle.spec_minus(surface_angle).spec_over(two).spec_sin(),
    ).spec_le(zero)
}

/// The arc in the modified independent variable from `angle1` to the
/// surface at `alpha`, at the specification level:
/// `direction · (α − rem_euclid(angle1 + pole, 2π) + pole)`, where the
/// direction is the sign of travel from `angle1` to `angle2` and the pole
/// shift is π exactly when `|α| < 1e-2`.
pub open spec fn spec_mod_step<T: Scalar>(angle1: T, angle2: T, alpha: T) -> T {
    let zero = T::spec_from_ratio(0, 1);
    let tau = T::spec_pi().spec_plus(T::spec_pi());
    let pole = if alpha.spec_abs().spec_lt(T::spec_from_ratio(1, 100)) {
        T::spec_pi()
    } else {
        zero
    };
    let direction = angle2.spec_minus(angle1).spec_signum();
    direction.spec_times(
        alpha.spec_minus(angle1.spec_plus(pole).spec_rem_euclid(tau)).spec_plus(pole),
    )
}

/// The κ scaling of the modified system's derivatives, at the
/// specification level: with `κ = 1/angle_dot` for the section's angle,
/// the angle's own slot carries `κ` and every other derivative is
/// multiplied by `κ`.
pub open spec fn kappa_scaled<T: Scalar, A, C, H>(
    section: PoincareSection,
    s: State<T, A, C, H>,
    r: State<T, A, C, H>,
) -> bool {
    match section {
        PoincareSection::ConstTheta => {
            let kappa = T::spec_from_ratio(1, 1).spec_over(s.theta_dot);
            &&& r.theta_dot == kappa
            &&& r.psip_dot == kappa.spec_times(s.psip_dot)
            &&& r.rho_dot == kappa.spec_times(s.rho_dot)
            &&& r.zeta_dot == kappa.spec_times(s.zeta_dot)
        },
        PoincareSection::ConstZeta => {
            let kappa = T::spec_from_ratio(1, 1).spec_over(s.zeta_dot);
            &&& r.zeta_dot == kappa
            &&& r.theta_dot == kappa.spec_times(s.theta_dot)
            &&& r.psip_dot == kappa.spec_times(s.psip_dot)
            &&& r.rho_dot == kappa.spec_times(s.rho_dot)
        },
    }
}

/// The swap relation of the modified system: `b` is `a` with time and the
/// section's angle exchanged, every other coordinate and the magnetic
/// moment equal. The relation is symmetric in `a` and `b`.
pub open spec fn angle_swapped<T: Scalar, A, C, H>(
    section: PoincareSection,
    a: State<T, A, C, H>,
    b: State<T, A, C, H>,
) -> bool {
    match section {
        PoincareSection::ConstTheta => {
            &&& b.time == a.theta
            &&& b.theta == a.time
            &&& b.psip == a.psip
            &&& b.rho == a.rho
            &&& b.zeta == a.zeta
            &&& b.mu == a.mu
        },
        PoincareSection::ConstZeta => {
            &&& b.time == a.zeta
            &&& b.zeta == a.time
            &&& b.psip == a.psip
            &&& b.rho == a.rho
            &&& b.theta == a.theta
            &&& b.mu == a.mu
        },
    }
}

/// Law: the coordinate swap of the modified system is an exact involution.
/// Swapping a state into the modified system and swapping the result back
/// reproduces the original coordinates — time, the three fluxes and angles,
/// and the magnetic moment — bit-identically.
///
/// (In the full transform a stepper step stands between the two swaps, so
/// the routine reproduces the coordinates only to within solver tolerance;
/// the swaps themselves lose nothing.)
pub proof fn lemma_swap_round_trip<T: Scalar, A, C, H>(
    section: PoincareSection,
    state: State<T, A, C, H>,
    mod_state: State<T, A, C, H>,
    back: State<T, A, C, H>,
)
    requires
        angle_swapped(section, state, mod_state),
        angle_swapped(section, mod_state, back),
    ensures
        back.same_position(state),
{
}

/// Creates a [`State`] of the modified system from `state1`, a state of the
/// normal system: the section's angle becomes the independent variable and
/// time becomes a dependent one, so every other derivative is multiplied by
/// `κ = 1/angle_dot`. The state is not evaluated: its derivatives belong to
/// the modified system, not to the field provider.
pub fn calculate_mod_state1<T: Scalar, A: Clone, C: Clone, H: Clone>(
    state1: &State<T, A, C, H>,
    section: &PoincareSection,
) -> (r: State<T, A, C, H>)
    ensures
        angle_swapped(*section, *state1, r),
        kappa_scaled(*section, *state1, r),
        !r.evaluated@,
{
    match section {
        PoincareSection::ConstTheta => {
            let kappa = T::from_ratio(1, 1).over(state1.theta_dot);
            State {
                time: state1.theta,
                theta: state1.time,
                theta_dot: kappa,
                psip_dot: kappa.times(state1.psip_dot),
                rho_dot: kappa.times(state1.rho_dot),
                zeta_dot: kappa.times(state1.zeta_dot),
                evaluated: Ghost(false),
                ..state1.branch()
            }
        },
        PoincareSection::ConstZeta => {
            let kappa = T::from_ratio(1, 1).over(state1.zeta_dot);
            State {
                time: state1.zeta,
                zeta: state1.time,
                theta_dot: kappa.times(state1.theta_dot),
                psip_dot: kappa.times(state1.psip_dot),
                rho_dot: kappa.times(state1.rho_dot),
                zeta_dot: kappa,
                evaluated: Ghost(false),
                ..state1.branch()
            }
        },
    }
}

/// Calculates the step size `dτ` that brings the first modified state onto
/// the intersection surface: the exact arc in the new independent variable
/// from `state1`'s angle to α, in the direction of travel inferred from
/// `state2`. A pole-avoidance shift of π is applied when α is within 1e-2
/// of zero, to keep the wrap-around at 2π away from the root.
pub fn calculate_mod_step<T: Scalar, A, C, H>(
    state1: &State<T, A, C, H>,
    state2: &State<T, A, C, H>,
    params: &MappingParameters<T>,
) -> (r: T)
    ensures
        r == match params.section {
            PoincareSection::ConstTheta => spec_mod_step(state1.theta, state2.theta, params.alpha),
            PoincareSection::ConstZeta => spec_mod_step(state1.zeta, state2.zeta, params.alpha),
        },
{
    let zero = T::from_ratio(0, 1);
    let tau = T::pi().plus(T::pi());
    let pole = if params.alpha.abs().lt(T::from_ratio(1, 100)) {
        T::pi()
    } else {
        zero
    };
    match params.section {
        PoincareSection::ConstTheta => {
            let direction = state2.theta.minus(state1.theta).signum();
            direction.times(
                params.alpha.minus(state1.theta.plus(pole).rem_euclid(tau)).plus(pole),
            )
        },
        PoincareSection::ConstZeta => {
            let direction = state2.zeta.minus(state1.zeta).signum();
            direction.times(
                params.alpha.minus(state1.zeta.plus(pole).rem_euclid(tau)).plus(pole),
            )
        },
    }
}

/// Performs exactly one stepper step of size `dτ` on the modified system,
/// producing the second modified state, which sits on the intersection
/// surface but still belongs to the modified system.
///
/// After the stage evaluation, the four weight coefficients are overridden
/// with the first modified state's derivatives, so that the modified
/// system's non-angle slopes match the original system's local
/// linearization, while the independent variable τ itself advances by the
/// freshly computed step. This correction is empirically required; it is
/// reproduced here exactly and deliberately not re-derived.
pub fn calculate_mod_state2<T: Scalar, A: Clone, C: Clone, H: Clone, Q: Qfactor<T, A>, Cu: Current<
    T,
    A,
>, B: Bfield<T, A, C>, P: Perturbation<T, A, H>>(
    qfactor: &Q,
    current: &Cu,
    bfield: &B,
    perturbation: &P,
    mod_state1: State<T, A, C, H>,
    dtau: T,
) -> (r: Result<State<T, A, C, H>, ParticleError>)
    ensures
        r is Ok <==> spec_cascade_ok(
            mod_state1.theta,
            mod_state1.psip,
            mod_state1.rho,
            mod_state1.zeta,
            mod_state1.mu,
            dtau,
            *qfactor,
            *current,
            *bfield,
            *perturbation,
        ),
        r matches Ok(s) ==> {
            &&& s.time == mod_state1.time.spec_plus(dtau)
            &&& s.theta == mod_state1.theta.spec_plus(dtau.spec_times(mod_state1.theta_dot))
            &&& s.psip == mod_state1.psip.spec_plus(dtau.spec_times(mod_state1.psip_dot))
            &&& s.rho == mod_state1.rho.spec_plus(dtau.spec_times(mod_state1.rho_dot))
            &&& s.zeta == mod_state1.zeta.spec_plus(dtau.spec_times(mod_state1.zeta_dot))
            &&& s.mu == mod_state1.mu
            &&& s.theta_dot == mod_state1.theta_dot
            &&& s.psip_dot == mod_state1.psip_dot
            &&& s.rho_dot == mod_state1.rho_dot
            &&& s.zeta_dot == mod_state1.zeta_dot
            &&& !s.evaluated@
        },
        r matches Err(e) ==> e is EqError,
{
    let mut mod_stepper = Stepper::new(&mod_state1);
    match mod_stepper.start(dtau, qfactor, current, bfield, perturbation) {
        Ok(()) => {},
        Err(e) => {
            return Err(e);
        },
    }
    mod_stepper.weights.theta = mod_state1.theta_dot;
    mod_stepper.weights.psip = mod_state1.psip_dot;
    mod_stepper.weights.rho = mod_state1.rho_dot;
    mod_stepper.weights.zeta = mod_state1.zeta_dot;
    Ok(mod_stepper.next_state(dtau))
}

/// Converts the second modified state back into the original system's
/// coordinates (the κ scaling is undone with κ = 1, and the independent
/// variable is swapped back), producing the intersection state, which is
/// evaluated against the field provider exactly once.
pub fn calculate_intersection_state<T: Scalar, A: Clone, C: Clone, H: Clone, Q: Qfactor<
    T,
    A,
>, Cu: Current<T, A>, B: Bfield<T, A, C>, P: Perturbation<T, A, H>>(
    qfactor: &Q,
    current: &Cu,
    bfield: &B,
    perturbation: &P,
    params: &MappingParameters<T>,
    mod_state2: State<T, A, C, H>,
) -> (r: Result<State<T, A, C, H>, ParticleError>)
    ensures
        r is Ok <==> (match params.section {
            PoincareSection::ConstTheta => spec_evaluation_ok(
                mod_state2.psip,
                mod_state2.time,
                mod_state2.zeta,
                mod_state2.rho,
                mod_state2.mu,
                *qfactor,
                *current,
                *bfield,
                *perturbation,
            ),
            PoincareSection::ConstZeta => spec_evaluation_ok(
                mod_state2.psip,
                mod_state2.theta,
                mod_state2.time,
                mod_state2.rho,
                mod_state2.mu,
                *qfactor,
                *current,
                *bfield,
                *perturbation,
            ),
        }),
        r matches Ok(s) ==> angle_swapped(params.section, mod_state2, s) && s.evaluated@
            && spec_field_consistent(s, *qfactor, *current, *bfield, *perturbation),
        r matches Err(e) ==> (e is EqError || e is EvaluationNaN),
{
    let kappa = T::from_ratio(1, 1);
    match params.section {
        PoincareSection::ConstTheta => State {
            time: mod_state2.theta,
            theta: mod_state2.time,
            theta_dot: kappa,
            psip_dot: kappa.times(mod_state2.psip_dot),
            rho_dot: kappa.times(mod_state2.rho_dot),
            zeta_dot: kappa.times(mod_state2.zeta_dot),
            mu: mod_state2.mu,
            ..mod_state2
        },
        PoincareSection::ConstZeta => State {
            time: mod_state2.zeta,
            zeta: mod_state2.time,
            theta_dot: kappa.times(mod_state2.theta_dot),
            psip_dot: kappa.times(mod_state2.psip_dot),
            rho_dot: kappa.times(mod_state2.rho_dot),
            zeta_dot: kappa,
            mu: mod_state2.mu,
            ..mod_state2
        },
    }.into_evaluated(qfactor, current, bfield, perturbation)
}

/// Whether an angle has crossed the surface at `surface_angle` between two
/// consecutive states: true iff
/// `sin((new−surface)/2) · sin((old−surface)/2) ≤ 0`, a sign-change test
/// robust to angle wrap-around.
///
/// `<=` is used rather than `<` for the case `surface_angle == 0`, since
/// the sine of angles very close to 0 (but not very close to 2π, 4π, …)
/// returns exactly zero: an angle landing exactly on the surface at the
/// lower bound counts as an intersection, while repeated non-crossing
/// touches do not double-count.
pub fn intersected<T: Scalar>(old_angle: T, new_angle: T, surface_angle: T) -> (r: bool)
    ensures
        r == spec_intersected(old_angle, new_angle, surface_angle),
{
    let two = T::from_ratio(2, 1);
    let diff1 = new_angle.minus(surface_angle);
    let diff2 = old_angle.minus(surface_angle);
    diff1.over(two).sin().times(diff2.over(two).sin()).le(T::from_ratio(0, 1))
}

} // verus!
