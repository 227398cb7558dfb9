//! Computing code coverage.
use vstd::prelude::*;

use crate::coverage_status::CoverageStatus;

verus! {

/// Why coverage could not be computed.
#[derive(Debug, Clone, PartialEq, Eq)]
pub enum CoverageError {
    /// The coverage tool is not installed.
    GrcovNotInstalled,
    /// Running the coverage tool or reading its output failed.
    Failed(String),
}

/// Something that computes code coverage.
pub trait ComputeCoverage {
    /// Computes coverage for the last run.
    fn compute_coverage(&self) -> Result<CoverageStatus, CoverageError>;

    /// Removes the output of earlier coverage runs.
    fn clean_coverage_output(&self) -> Result<(), CoverageError>;
}

/// A stand-in for tests: cleaning succeeds and coverage is reported as disabled.
pub struct StubComputeCoverage;

impl ComputeCoverage for StubComputeCoverage {
    fn compute_coverage(&self) -> (r: Result<CoverageStatus, CoverageError>)
        ensures
            r == Ok::<CoverageStatus, CoverageError>(CoverageStatus::Disabled),
    {
        Ok(CoverageStatus::Disabled)
    }

    fn clean_coverage_output(&self) -> (r: Result<(), CoverageError>)
        ensures
            r == Ok::<(), CoverageError>(()),
    {
        Ok(())
    }
}

/// A coverage computer for tests: cleaning succeeds and coverage is
/// reported as disabled.
pub fn stub() -> (r: StubComputeCoverage) {
    StubComputeCoverage
}

} // verus!
