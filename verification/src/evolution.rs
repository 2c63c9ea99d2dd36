//! The time series recorded along a particle's orbit.

use vstd::prelude::*;

use crate::scalar::Scalar;
use crate::state::State;

verus! {

/// The initial capacity of the time series vectors.
const EVOLUTION_INIT_CAPACITY: usize = 2000;

/// The sum of a series, at the specification level: zero for the empty
/// series, summed left to right.
pub open spec fn spec_sum<T: Scalar>(series: Seq<T>) -> T
    decreases series.len(),
{
    if series.len() == 0 {
        T::spec_from_ratio(0, 1)
    } else {
        spec_sum(series.drop_last()).spec_plus(series.last())
    }
}

/// The sum of squared deviations of a series from `center`, at the
/// specification level.
pub open spec fn spec_square_deviations<T: Scalar>(series: Seq<T>, center: T) -> T
    decreases series.len(),
{
    if series.len() == 0 {
        T::spec_from_ratio(0, 1)
    } else {
        spec_square_deviations(series.drop_last(), center).spec_plus(
            {
                let deviation = series.last().spec_minus(center);
                deviation.spec_times(deviation)
            },
        )
    }
}

/// The relative standard deviation σ/μ̄ of a series, at the specification
/// level: with `n` entries, the mean is `Σx/n`, the population standard
/// deviation is `√(Σ(x−mean)²/n)`, and the result is their quotient.
pub open spec fn spec_relative_std<T: Scalar>(series: Seq<T>) -> T {
    let count = T::spec_from_count(series.len() as usize);
    let mean = spec_sum(series).spec_over(count);
    spec_square_deviations(series, mean).spec_over(count).spec_sqrt().spec_over(mean)
}

/// Append-only time series of every accepted state's scalar fields, plus
/// the run metadata.
///
/// The nine series grow in lockstep ([`Evolution::consistent`]): one entry
/// per stored step. [`Evolution::finish`] computes the relative energy
/// standard deviation; [`Evolution::discard`] frees the series while
/// preserving the metadata, for memory-constrained batch use.
#[derive(Clone, Debug)]
pub struct Evolution<T> {
    /// The time series.
    pub time: Vec<T>,
    /// The `θ` angle time series.
    pub theta: Vec<T>,
    /// The poloidal flux `ψp` time series.
    pub psip: Vec<T>,
    /// The parallel gyroradius `ρ` time series.
    pub rho: Vec<T>,
    /// The `ζ` angle time series.
    pub zeta: Vec<T>,
    /// The toroidal flux `ψ` time series.
    pub psi: Vec<T>,
    /// The canonical momentum `Pθ` time series.
    pub ptheta: Vec<T>,
    /// The canonical momentum `Pζ` time series.
    pub pzeta: Vec<T>,
    /// The energy time series.
    pub energy: Vec<T>,
    /// Wall-clock duration of the last routine in milliseconds, recorded
    /// by the caller; advisory only — the core never reads a clock, and
    /// nothing of the trajectory depends on it.
    pub duration_ms: u64,
    /// The total steps of the integration.
    pub steps_taken: usize,
    /// The steps stored in the time series.
    pub steps_stored: usize,
    /// Relative standard deviation of the energy time series (σ/μ̄).
    pub energy_std: T,
}

impl<T: Scalar> Evolution<T> {
    /// The two evolutions hold the same nine series.
    pub open spec fn same_series(&self, other: Self) -> bool {
        &&& self.time@ == other.time@
        &&& self.theta@ == other.theta@
        &&& self.psip@ == other.psip@
        &&& self.rho@ == other.rho@
        &&& self.zeta@ == other.zeta@
        &&& self.psi@ == other.psi@
        &&& self.ptheta@ == other.ptheta@
        &&& self.pzeta@ == other.pzeta@
        &&& self.energy@ == other.energy@
    }

    /// The nine series hold one entry per stored step.
    pub open spec fn consistent(&self) -> bool {
        &&& self.time@.len() == self.steps_stored
        &&& self.theta@.len() == self.steps_stored
        &&& self.psip@.len() == self.steps_stored
        &&& self.rho@.len() == self.steps_stored
        &&& self.zeta@.len() == self.steps_stored
        &&& self.psi@.len() == self.steps_stored
        &&& self.ptheta@.len() == self.steps_stored
        &&& self.pzeta@.len() == self.steps_stored
        &&& self.energy@.len() == self.steps_stored
    }

    /// Creates an [`Evolution`], initializing the series with `capacity`.
    pub(crate) fn with_capacity(capacity: usize) -> (r: Self)
        ensures
            r.steps_taken == 0,
            r.steps_stored == 0,
            r.consistent(),
    {
        Evolution {
            time: Vec::with_capacity(capacity),
            theta: Vec::with_capacity(capacity),
            psip: Vec::with_capacity(capacity),
            rho: Vec::with_capacity(capacity),
            zeta: Vec::with_capacity(capacity),
            psi: Vec::with_capacity(capacity),
            ptheta: Vec::with_capacity(capacity),
            pzeta: Vec::with_capacity(capacity),
            energy: Vec::with_capacity(capacity),
            energy_std: T::nan(),
            duration_ms: 0,
            steps_taken: 0,
            steps_stored: 0,
        }
    }

    /// Returns the total steps of the integration.
    pub fn steps_taken(&self) -> (r: usize)
        ensures
            r == self.steps_taken,
    {
        self.steps_taken
    }

    /// Returns the number of steps stored in each time series.
    pub fn steps_stored(&self) -> (r: usize)
        ensures
            r == self.steps_stored,
    {
        self.steps_stored
    }

    /// Returns the final stored time, or `None` when nothing is stored yet.
    pub fn final_time(&self) -> (r: Option<T>)
        ensures
            r == if self.time@.len() == 0 {
                None::<T>
            } else {
                Some(self.time@.last())
            },
    {
        if self.time.len() == 0 {
            None
        } else {
            Some(self.time[self.time.len() - 1])
        }
    }

    /// Pushes the scalar fields of a [`State`] onto the time series.
    pub(crate) fn push_state<A, C, H>(&mut self, state: &State<T, A, C, H>)
        requires
            old(self).consistent(),
            old(self).steps_stored < usize::MAX,
        ensures
            final(self).consistent(),
            final(self).steps_stored == old(self).steps_stored + 1,
            final(self).steps_taken == old(self).steps_taken,
            final(self).duration_ms == old(self).duration_ms,
            final(self).energy_std == old(self).energy_std,
            final(self).time@ == old(self).time@.push(state.time),
            final(self).theta@ == old(self).theta@.push(state.theta),
            final(self).psip@ == old(self).psip@.push(state.psip),
            final(self).rho@ == old(self).rho@.push(state.rho),
            final(self).zeta@ == old(self).zeta@.push(state.zeta),
            final(self).psi@ == old(self).psi@.push(state.psi),
            final(self).ptheta@ == old(self).ptheta@.push(state.ptheta),
            final(self).pzeta@ == old(self).pzeta@.push(state.pzeta),
            final(self).energy@ == old(self).energy@.push(state.energy),
    {
        self.time.push(state.time);
        self.theta.push(state.theta);
        self.psip.push(state.psip);
        self.rho.push(state.rho);
        self.zeta.push(state.zeta);
        self.psi.push(state.psi);
        self.ptheta.push(state.ptheta);
        self.pzeta.push(state.pzeta);
        self.energy.push(state.energy());
        self.steps_stored = self.steps_stored + 1;
    }

    /// Computes `energy_std`, the relative standard deviation σ/μ̄ of the
    /// energy series, leaving the series and the counters unchanged.
    pub(crate) fn finish(&mut self)
        ensures
            final(self).time@ == old(self).time@,
            final(self).theta@ == old(self).theta@,
            final(self).psip@ == old(self).psip@,
            final(self).rho@ == old(self).rho@,
            final(self).zeta@ == old(self).zeta@,
            final(self).psi@ == old(self).psi@,
            final(self).ptheta@ == old(self).ptheta@,
            final(self).pzeta@ == old(self).pzeta@,
            final(self).energy@ == old(self).energy@,
            final(self).steps_taken == old(self).steps_taken,
            final(self).steps_stored == old(self).steps_stored,
            final(self).duration_ms == old(self).duration_ms,
            final(self).energy_std == spec_relative_std(old(self).energy@),
    {
        let n = self.energy.len();
        let count = T::from_count(n);

        let mut sum = T::from_ratio(0, 1);
        let mut idx: usize = 0;
        while idx < n
            invariant
                idx <= n,
                n == self.energy@.len(),
                sum == spec_sum(self.energy@.take(idx as int)),
                self.same_series(*old(self)),
                self.steps_taken == old(self).steps_taken,
                self.steps_stored == old(self).steps_stored,
                self.duration_ms == old(self).duration_ms,
                self.energy_std == old(self).energy_std,
            decreases n - idx,
        {
            proof {
                assert(self.energy@.take(idx + 1).drop_last() =~= self.energy@.take(idx as int));
                assert(self.energy@.take(idx + 1).last() == self.energy@[idx as int]);
            }
            sum = sum.plus(self.energy[idx]);
            idx = idx + 1;
        }
        proof {
            assert(self.energy@.take(n as int) =~= self.energy@);
        }
        let mean = sum.over(count);

        let mut squares = T::from_ratio(0, 1);
        idx = 0;
        while idx < n
            invariant
                idx <= n,
                n == self.energy@.len(),
                mean == spec_sum(self.energy@).spec_over(T::spec_from_count(n)),
                squares == spec_square_deviations(self.energy@.take(idx as int), mean),
                self.same_series(*old(self)),
                self.steps_taken == old(self).steps_taken,
                self.steps_stored == old(self).steps_stored,
                self.duration_ms == old(self).duration_ms,
                self.energy_std == old(self).energy_std,
            decreases n - idx,
        {
            proof {
                assert(self.energy@.take(idx + 1).drop_last() =~= self.energy@.take(idx as int));
                assert(self.energy@.take(idx + 1).last() == self.energy@[idx as int]);
            }
            let deviation = self.energy[idx].minus(mean);
            squares = squares.plus(deviation.times(deviation));
            idx = idx + 1;
        }
        proof {
            assert(self.energy@.take(n as int) =~= self.energy@);
        }
        let std = squares.over(count).sqrt();

        self.energy_std = std.over(mean);
    }

    /// Resets all series to empty, keeping all the other fields.
    ///
    /// Use this to free memory when dealing with many particles.
    pub fn discard(&mut self)
        ensures
            final(self).time@.len() == 0,
            final(self).theta@.len() == 0,
            final(self).psip@.len() == 0,
            final(self).rho@.len() == 0,
            final(self).zeta@.len() == 0,
            final(self).psi@.len() == 0,
            final(self).ptheta@.len() == 0,
            final(self).pzeta@.len() == 0,
            final(self).energy@.len() == 0,
            final(self).steps_taken == old(self).steps_taken,
            final(self).steps_stored == old(self).steps_stored,
            final(self).duration_ms == old(self).duration_ms,
            final(self).energy_std == old(self).energy_std,
    {
        self.time = Vec::new();
        self.theta = Vec::new();
        self.psip = Vec::new();
        self.rho = Vec::new();
        self.zeta = Vec::new();
        self.psi = Vec::new();
        self.ptheta = Vec::new();
        self.pzeta = Vec::new();
        self.energy = Vec::new();
    }
}

impl<T: Scalar> Default for Evolution<T> {
    /// An empty evolution with the default initial capacity.
    fn default() -> (r: Self)
        ensures
            r.steps_taken == 0,
            r.steps_stored == 0,
            r.consistent(),
    {
        Evolution::with_capacity(EVOLUTION_INIT_CAPACITY)
    }
}

} // verus!
