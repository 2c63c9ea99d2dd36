//! Analytic equilibrium objects.
//!
//! These small closed-form backends satisfy the field-provider traits
//! without any reconstructed data, and are handy for testing and for
//! idealized studies.

use vstd::prelude::*;

use crate::error::FieldError;
use crate::field::{Bfield, Current, Qfactor};
use crate::scalar::Scalar;

verus! {

/// The unity safety factor: `q(ψp) = 1`, so `ψ(ψp) = ψp`.
#[derive(Debug, Clone, Copy)]
pub struct UnityQfactor;

impl<T: Scalar, A> Qfactor<T, A> for UnityQfactor {
    open spec fn spec_q(&self, psip: T) -> Result<T, FieldError> {
        Ok(T::spec_from_ratio(1, 1))
    }

    /// Always returns `1`.
    fn q(&self, psip: T, acc: &mut A) -> Result<T, FieldError> {
        Ok(T::from_ratio(1, 1))
    }

    open spec fn spec_psi(&self, psip: T) -> Result<T, FieldError> {
        Ok(psip)
    }

    /// Always returns `psip`.
    fn psi(&self, psip: T, acc: &mut A) -> Result<T, FieldError> {
        Ok(psip)
    }

    open spec fn spec_dpsi_dpsip(&self, psip: T) -> Result<T, FieldError> {
        Ok(T::spec_from_ratio(1, 1))
    }

    /// Always returns `1`.
    fn dpsi_dpsip(&self, psip: T, acc: &mut A) -> Result<T, FieldError> {
        Ok(T::from_ratio(1, 1))
    }
}

/// The large-aspect-ratio current profiles: `g = 1` and `i = 0`
/// identically.
#[derive(Debug, Clone, Copy)]
pub struct LarCurrent;

impl<T: Scalar, A> Current<T, A> for LarCurrent {
    open spec fn spec_g(&self, psip: T) -> Result<T, FieldError> {
        Ok(T::spec_from_ratio(1, 1))
    }

    /// Always returns `1`.
    fn g(&self, psip: T, acc: &mut A) -> Result<T, FieldError> {
        Ok(T::from_ratio(1, 1))
    }

    open spec fn spec_i(&self, psip: T) -> Result<T, FieldError> {
        Ok(T::spec_from_ratio(0, 1))
    }

    /// Always returns `0`.
    fn i(&self, psip: T, acc: &mut A) -> Result<T, FieldError> {
        Ok(T::from_ratio(0, 1))
    }

    open spec fn spec_dg_dpsip(&self, psip: T) -> Result<T, FieldError> {
        Ok(T::spec_from_ratio(0, 1))
    }

    /// Always returns `0`.
    fn dg_dpsip(&self, psip: T, acc: &mut A) -> Result<T, FieldError> {
        Ok(T::from_ratio(0, 1))
    }

    open spec fn spec_di_dpsip(&self, psip: T) -> Result<T, FieldError> {
        Ok(T::spec_from_ratio(0, 1))
    }

    /// Always returns `0`.
    fn di_dpsip(&self, psip: T, acc: &mut A) -> Result<T, FieldError> {
        Ok(T::from_ratio(0, 1))
    }
}

/// The large-aspect-ratio approximation of the magnetic field,
/// `B(ψ, θ) = 1 − √(2ψ)·cos θ`.
///
/// Since the LAR field is a function of the toroidal flux ψ rather than
/// ψp, it depends on the q-factor profile: every evaluation first obtains
/// ψ from ψp through the q-factor.
#[derive(Debug, Clone)]
pub struct LarBfield<Q> {
    /// The q-factor profile the flux conversion goes through.
    pub qfactor: Q,
}

impl<Q: Clone> LarBfield<Q> {
    /// Creates a new large-aspect-ratio magnetic field on top of the given
    /// q-factor profile.
    pub fn new(qfactor: &Q) -> Self {
        LarBfield { qfactor: qfactor.clone() }
    }

    /// Returns a clone of the contained q-factor object.
    pub fn qfactor(&self) -> Q {
        self.qfactor.clone()
    }
}

impl<T: Scalar, A, C, Q: Qfactor<T, A>> Bfield<T, A, C> for LarBfield<Q> {
    open spec fn spec_b(&self, psip: T, theta: T) -> Result<T, FieldError> {
        match self.qfactor.spec_psi(psip) {
            Err(e) => Err(e),
            Ok(psi) => {
                let two = T::spec_from_ratio(2, 1);
                Ok(
                    T::spec_from_ratio(1, 1).spec_minus(
                        two.spec_times(psi).spec_sqrt().spec_times(theta.spec_cos()),
                    ),
                )
            },
        }
    }

    /// `B = 1 − √(2ψ)·cos θ`.
    fn b(
        &self,
        psip: T,
        theta: T,
        xacc: &mut A,
        yacc: &mut A,
        cache: &mut C,
    ) -> Result<T, FieldError> {
        let psi = self.qfactor.psi(psip, xacc)?;
        let two = T::from_ratio(2, 1);
        Ok(T::from_ratio(1, 1).minus(two.times(psi).sqrt().times(theta.cos())))
    }

    open spec fn spec_db_dpsip(&self, psip: T, theta: T) -> Result<T, FieldError> {
        match self.qfactor.spec_psi(psip) {
            Err(e) => Err(e),
            Ok(psi) => {
                let two = T::spec_from_ratio(2, 1);
                Ok(
                    T::spec_from_ratio(1, 1).spec_over(two.spec_times(psi).spec_sqrt()).spec_times(
                        theta.spec_cos(),
                    ).spec_neg(),
                )
            },
        }
    }

    /// `∂B/∂ψp = −cos θ / √(2ψ)`.
    fn db_dpsip(
        &self,
        psip: T,
        theta: T,
        xacc: &mut A,
        yacc: &mut A,
        cache: &mut C,
    ) -> Result<T, FieldError> {
        let psi = self.qfactor.psi(psip, xacc)?;
        let two = T::from_ratio(2, 1);
        Ok(T::from_ratio(1, 1).over(two.times(psi).sqrt()).times(theta.cos()).neg())
    }

    open spec fn spec_db_dtheta(&self, psip: T, theta: T) -> Result<T, FieldError> {
        match self.qfactor.spec_psi(psip) {
            Err(e) => Err(e),
            Ok(psi) => {
                let two = T::spec_from_ratio(2, 1);
                Ok(two.spec_times(psi).spec_sqrt().spec_times(theta.spec_sin()))
            },
        }
    }

    /// `∂B/∂θ = √(2ψ)·sin θ`.
    fn db_dtheta(
        &self,
        psip: T,
        theta: T,
        xacc: &mut A,
        yacc: &mut A,
        cache: &mut C,
    ) -> Result<T, FieldError> {
        let psi = self.qfactor.psi(psip, xacc)?;
        let two = T::from_ratio(2, 1);
        Ok(two.times(psi).sqrt().times(theta.sin()))
    }
}

} // verus!
