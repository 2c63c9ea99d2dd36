//! The field-provider capability traits.
//!
//! The equilibrium that the particle moves through is consumed only through
//! these four narrow traits, so any backend — an analytic model or a
//! numerically reconstructed one — can drive the integrator. Each method
//! takes the coordinates of the evaluation point together with the mutable
//! evaluation aids owned by the calling [`crate::state::State`]: the
//! interpolation accelerators (`A`), the two-dimensional interpolation
//! cache (`C`) and the per-harmonic value caches (`H`). The aids are opaque
//! to this core; a provider uses them as a hit/miss fast path and may
//! mutate them freely.
//!
//! A method fails with [`FieldError::Domain`] exactly when the requested
//! point lies outside the provider's valid region.
//!
//! Each method has a specification-level companion (`spec_q` for `q`, and
//! so on) over the coordinates alone, and promises to return exactly that
//! companion's value: a provider's result is a pure function of the
//! profile and the point, never of the state of the aids — they are a
//! cache, not an input.

use vstd::prelude::*;

use crate::error::FieldError;
use crate::scalar::Scalar;

verus! {

/// Safety-factor profile `q(ψp)` and the toroidal flux `ψ(ψp)` it induces.
pub trait Qfactor<T: Scalar, A>: Clone {
    /// The safety factor, at the specification level.
    spec fn spec_q(&self, psip: T) -> Result<T, FieldError>;

    /// The safety factor `q(ψp)`.
    fn q(&self, psip: T, acc: &mut A) -> (r: Result<T, FieldError>)
        ensures
            r == self.spec_q(psip),
    ;

    /// The toroidal flux, at the specification level.
    spec fn spec_psi(&self, psip: T) -> Result<T, FieldError>;

    /// The toroidal flux `ψ(ψp)`.
    fn psi(&self, psip: T, acc: &mut A) -> (r: Result<T, FieldError>)
        ensures
            r == self.spec_psi(psip),
    ;

    /// The flux derivative, at the specification level.
    spec fn spec_dpsi_dpsip(&self, psip: T) -> Result<T, FieldError>;

    /// The derivative `dψ/dψp` (equal to `q(ψp)`).
    fn dpsi_dpsip(&self, psip: T, acc: &mut A) -> (r: Result<T, FieldError>)
        ensures
            r == self.spec_dpsi_dpsip(psip),
    ;
}

/// Covariant current profiles `g(ψp)` (toroidal) and `i(ψp)` (poloidal).
pub trait Current<T: Scalar, A> {
    /// The toroidal current, at the specification level.
    spec fn spec_g(&self, psip: T) -> Result<T, FieldError>;

    /// The toroidal current `g(ψp)`.
    fn g(&self, psip: T, acc: &mut A) -> (r: Result<T, FieldError>)
        ensures
            r == self.spec_g(psip),
    ;

    /// The poloidal current, at the specification level.
    spec fn spec_i(&self, psip: T) -> Result<T, FieldError>;

    /// The poloidal current `i(ψp)`.
    fn i(&self, psip: T, acc: &mut A) -> (r: Result<T, FieldError>)
        ensures
            r == self.spec_i(psip),
    ;

    /// The toroidal current derivative, at the specification level.
    spec fn spec_dg_dpsip(&self, psip: T) -> Result<T, FieldError>;

    /// The derivative `dg/dψp`.
    fn dg_dpsip(&self, psip: T, acc: &mut A) -> (r: Result<T, FieldError>)
        ensures
            r == self.spec_dg_dpsip(psip),
    ;

    /// The poloidal current derivative, at the specification level.
    spec fn spec_di_dpsip(&self, psip: T) -> Result<T, FieldError>;

    /// The derivative `di/dψp`.
    fn di_dpsip(&self, psip: T, acc: &mut A) -> (r: Result<T, FieldError>)
        ensures
            r == self.spec_di_dpsip(psip),
    ;
}

/// Magnetic-field magnitude `B(ψp, θ)` and its first derivatives.
pub trait Bfield<T: Scalar, A, C> {
    /// The field magnitude, at the specification level.
    spec fn spec_b(&self, psip: T, theta: T) -> Result<T, FieldError>;

    /// The field magnitude `B(ψp, θ)`.
    fn b(
        &self,
        psip: T,
        theta: T,
        xacc: &mut A,
        yacc: &mut A,
        cache: &mut C,
    ) -> (r: Result<T, FieldError>)
        ensures
            r == self.spec_b(psip, theta),
    ;

    /// The flux derivative of the field, at the specification level.
    spec fn spec_db_dpsip(&self, psip: T, theta: T) -> Result<T, FieldError>;

    /// The derivative `∂B/∂ψp`.
    fn db_dpsip(
        &self,
        psip: T,
        theta: T,
        xacc: &mut A,
        yacc: &mut A,
        cache: &mut C,
    ) -> (r: Result<T, FieldError>)
        ensures
            r == self.spec_db_dpsip(psip, theta),
    ;

    /// The angular derivative of the field, at the specification level.
    spec fn spec_db_dtheta(&self, psip: T, theta: T) -> Result<T, FieldError>;

    /// The derivative `∂B/∂θ`.
    fn db_dtheta(
        &self,
        psip: T,
        theta: T,
        xacc: &mut A,
        yacc: &mut A,
        cache: &mut C,
    ) -> (r: Result<T, FieldError>)
        ensures
            r == self.spec_db_dtheta(psip, theta),
    ;
}

/// Perturbation value `p(ψp, θ, ζ)` summed over harmonics, with its first
/// derivatives.
///
/// `caches` holds one opaque value cache per harmonic; a provider may grow
/// the collection to the number of harmonics it carries.
pub trait Perturbation<T: Scalar, A, H> {
    /// The perturbation sum, at the specification level.
    spec fn spec_p(&self, psip: T, theta: T, zeta: T) -> Result<T, FieldError>;

    /// The perturbation sum `p(ψp, θ, ζ)`.
    fn p(
        &self,
        psip: T,
        theta: T,
        zeta: T,
        acc: &mut A,
        caches: &mut Vec<H>,
    ) -> (r: Result<T, FieldError>)
        ensures
            r == self.spec_p(psip, theta, zeta),
    ;

    /// The flux derivative of the sum, at the specification level.
    spec fn spec_dp_dpsip(&self, psip: T, theta: T, zeta: T) -> Result<T, FieldError>;

    /// The derivative `∂p/∂ψp`.
    fn dp_dpsip(
        &self,
        psip: T,
        theta: T,
        zeta: T,
        acc: &mut A,
        caches: &mut Vec<H>,
    ) -> (r: Result<T, FieldError>)
        ensures
            r == self.spec_dp_dpsip(psip, theta, zeta),
    ;

    /// The poloidal derivative of the sum, at the specification level.
    spec fn spec_dp_dtheta(&self, psip: T, theta: T, zeta: T) -> Result<T, FieldError>;

    /// The derivative `∂p/∂θ`.
    fn dp_dtheta(
        &self,
        psip: T,
        theta: T,
        zeta: T,
        acc: &mut A,
        caches: &mut Vec<H>,
    ) -> (r: Result<T, FieldError>)
        ensures
            r == self.spec_dp_dtheta(psip, theta, zeta),
    ;

    /// The toroidal derivative of the sum, at the specification level.
    spec fn spec_dp_dzeta(&self, psip: T, theta: T, zeta: T) -> Result<T, FieldError>;

    /// The derivative `∂p/∂ζ`.
    fn dp_dzeta(
        &self,
        psip: T,
        theta: T,
        zeta: T,
        acc: &mut A,
        caches: &mut Vec<H>,
    ) -> (r: Result<T, FieldError>)
        ensures
            r == self.spec_dp_dzeta(psip, theta, zeta),
    ;

    /// The explicit time derivative of the sum, at the specification
    /// level.
    spec fn spec_dp_dt(&self, psip: T, theta: T, zeta: T) -> Result<T, FieldError>;

    /// The explicit time derivative `∂p/∂t`.
    fn dp_dt(
        &self,
        psip: T,
        theta: T,
        zeta: T,
        acc: &mut A,
        caches: &mut Vec<H>,
    ) -> (r: Result<T, FieldError>)
        ensures
            r == self.spec_dp_dt(psip, theta, zeta),
    ;

    /// The number of harmonics in the sum.
    fn len(&self) -> usize;

    /// Whether the perturbation carries no harmonic at all.
    fn is_empty(&self) -> bool {
        self.len() == 0
    }
}

} // verus!
