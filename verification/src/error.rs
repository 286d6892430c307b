//! The package layer's failure taxonomy.

use vstd::prelude::*;

verus! {

#[derive(Debug, Clone, PartialEq, Eq)]
pub enum PpmError {
    Io(String),
    Serialization(String),
    Signature(String),
    InvalidPackage(String),
    PackageNotFound(String),
    DependencyResolution(String),
    SecurityViolation(String),
}

pub type PpmResult<T> = Result<T, PpmError>;

} // verus!
