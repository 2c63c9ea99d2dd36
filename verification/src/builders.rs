//! Builders naming the reconstructed equilibrium objects.
//!
//! An equilibrium can be reconstructed from a data file by interpolation
//! over its arrays. These builders carry the configuration of such a
//! reconstruction — the file's path and the requested interpolation
//! types — as plain values; the reading and spline fitting themselves
//! happen outside this core.

use vstd::prelude::*;

verus! {

/// Configuration for reconstructing an equilibrium geometry from a data
/// file.
#[derive(Debug, Clone)]
pub struct NcGeometryBuilder {
    /// Path to the data file.
    pub path: String,
    /// One-dimensional interpolation type, in case-insensitive string
    /// format.
    pub typ1d: String,
    /// Two-dimensional interpolation type, in case-insensitive string
    /// format.
    pub typ2d: String,
}

impl NcGeometryBuilder {
    /// Creates a new [`NcGeometryBuilder`] for the data file at `path`,
    /// with splines of the given interpolation types.
    pub fn new(path: &str, typ1d: &str, typ2d: &str) -> (r: Self)
        ensures
            r.path@ == path@,
            r.typ1d@ == typ1d@,
            r.typ2d@ == typ2d@,
    {
        NcGeometryBuilder { path: path.to_owned(), typ1d: typ1d.to_owned(), typ2d: typ2d.to_owned() }
    }
}

/// Configuration for reconstructing a magnetic field from a data file.
#[derive(Debug, Clone)]
pub struct NcBfieldBuilder {
    /// Path to the data file.
    pub path: String,
    /// Two-dimensional interpolation type, in case-insensitive string
    /// format.
    pub typ: String,
}

impl NcBfieldBuilder {
    /// Creates a new [`NcBfieldBuilder`] for the data file at `path`, with
    /// a spline of the given interpolation type.
    pub fn new(path: &str, typ: &str) -> (r: Self)
        ensures
            r.path@ == path@,
            r.typ@ == typ@,
    {
        NcBfieldBuilder { path: path.to_owned(), typ: typ.to_owned() }
    }
}

/// Configuration for reconstructing the current profiles from a data file.
#[derive(Debug, Clone)]
pub struct NcCurrentBuilder {
    /// Path to the data file.
    pub path: String,
    /// One-dimensional interpolation type, in case-insensitive string
    /// format.
    pub typ: String,
}

impl NcCurrentBuilder {
    /// Creates a new [`NcCurrentBuilder`] for the data file at `path`,
    /// with a spline of the given interpolation type.
    pub fn new(path: &str, typ: &str) -> (r: Self)
        ensures
            r.path@ == path@,
            r.typ@ == typ@,
    {
        NcCurrentBuilder { path: path.to_owned(), typ: typ.to_owned() }
    }
}

/// Configuration for reconstructing a q-factor profile from a data file.
#[derive(Debug, Clone)]
pub struct NcQfactorBuilder {
    /// Path to the data file.
    pub path: String,
    /// One-dimensional interpolation type, in case-insensitive string
    /// format.
    pub typ: String,
}

impl NcQfactorBuilder {
    /// Creates a new [`NcQfactorBuilder`] for the data file at `path`,
    /// with a spline of the given interpolation type.
    pub fn new(path: &str, typ: &str) -> (r: Self)
        ensures
            r.path@ == path@,
            r.typ@ == typ@,
    {
        NcQfactorBuilder { path: path.to_owned(), typ: typ.to_owned() }
    }
}

} // verus!
