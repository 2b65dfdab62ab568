//! The ways in which deriving or reporting a beacon can fail.

use vstd::prelude::*;

verus! {

/// Why a beacon could not be derived or reported. The first three are
/// decided by the inputs alone: the same inputs fail the same way every time.
#[derive(Debug, Clone, Copy, PartialEq, Eq, Structural)]
pub enum Error {
    /// The entropy versions are not a supported, matching pair.
    InvalidVersion,
    /// The region's channel plan is empty.
    NoRegionParameters,
    /// The list of data rates to choose from is empty.
    NoDataRate,
    /// The system clock could not be read when the report was made.
    ClockError,
}

impl Error {
    pub fn invalid_version() -> (e: Error)
        ensures
            e == Error::InvalidVersion,
    {
        Error::InvalidVersion
    }

    pub fn no_region_params() -> (e: Error)
        ensures
            e == Error::NoRegionParameters,
    {
        Error::NoRegionParameters
    }

    pub fn no_data_rate() -> (e: Error)
        ensures
            e == Error::NoDataRate,
    {
        Error::NoDataRate
    }
}

} // verus!
