//! A conformance matrix for mocking libraries: a fixed catalog of feature
//! probes, run against each library's adapter, classified into verdicts and
//! gathered into one table.

pub mod catalog;
pub mod matrix;
pub mod pseudo;
pub mod report;
pub mod runner;
pub mod suite;
pub mod verdict;
pub mod version;

pub use suite::TestSuite;

use vstd::prelude::*;

verus! {

/// A value that is neither `Clone` nor `Copy`, for scenarios that pass or
/// return uniquely owned data.
#[derive(Debug, PartialEq, Eq)]
pub struct UniquelyOwned(pub u32);

} // verus!
