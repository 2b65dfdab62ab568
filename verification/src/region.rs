//! Region channel plans and the data rates a beacon may be sent at.

use crate::error::Error;
use vstd::prelude::*;

verus! {

/// One channel of a region's channel plan.
#[derive(Debug, Clone, Copy, PartialEq, Eq, Structural)]
pub struct RegionParameter {
    /// The channel's centre frequency in Hz.
    pub channel_frequency: u64,
}

/// A LoRaWAN modulation: spreading factor and bandwidth, LR-FHSS or FSK.
#[derive(Debug, Clone, Copy, PartialEq, Eq, Structural)]
pub enum DataRate {
    Sf12bw125,
    Sf11bw125,
    Sf10bw125,
    Sf9bw125,
    Sf8bw125,
    Sf7bw125,
    Sf12bw250,
    Sf11bw250,
    Sf10bw250,
    Sf9bw250,
    Sf8bw250,
    Sf7bw250,
    Sf12bw500,
    Sf11bw500,
    Sf10bw500,
    Sf9bw500,
    Sf8bw500,
    Sf7bw500,
    Lrfhss1bw137,
    Lrfhss2bw137,
    Lrfhss1bw336,
    Lrfhss2bw336,
    Lrfhss1bw1523,
    Lrfhss2bw1523,
    Fsk50,
}

/// The data rates a beacon may use, in the order they are drawn from. These
/// are the ones allowed in every region.
pub const BEACON_DATA_RATES: [DataRate; 4] = [
    DataRate::Sf7bw125,
    DataRate::Sf8bw125,
    DataRate::Sf9bw125,
    DataRate::Sf10bw125,
];

/// Whether a beacon may be sent at `rate`: it is one of [`BEACON_DATA_RATES`].
pub open spec fn is_beacon_data_rate(rate: DataRate) -> bool {
    BEACON_DATA_RATES@.contains(rate)
}

/// What choosing a channel comes to: its frequency, or an error if there was
/// none to choose.
pub open spec fn chosen_frequency(choice: Option<&RegionParameter>) -> Result<u64, Error> {
    match choice {
        Some(parameter) => Ok(parameter.channel_frequency),
        None => Err(Error::NoRegionParameters),
    }
}

/// What choosing a data rate comes to: the rate, or an error if there was
/// none to choose.
pub open spec fn chosen_data_rate(choice: Option<&DataRate>) -> Result<DataRate, Error> {
    match choice {
        Some(rate) => Ok(*rate),
        None => Err(Error::NoDataRate),
    }
}

/// Turns the outcome of choosing a channel into its frequency; nothing to
/// choose from is an error.
pub fn frequency_of(choice: Option<&RegionParameter>) -> (frequency: Result<u64, Error>)
    ensures
        frequency == chosen_frequency(choice),
{
    match choice {
        Some(parameter) => Ok(parameter.channel_frequency),
        None => Err(Error::no_region_params()),
    }
}

/// Turns the outcome of choosing a data rate into the rate; nothing to choose
/// from is an error.
pub fn data_rate_of(choice: Option<&DataRate>) -> (rate: Result<DataRate, Error>)
    ensures
        rate == chosen_data_rate(choice),
{
    match choice {
        Some(chosen) => Ok(*chosen),
        None => Err(Error::no_data_rate()),
    }
}

} // verus!
