//! Deterministic derivation of proof-of-coverage beacons.
//!
//! A beacon is derived from two entropies, one supplied remotely and one made
//! on the device, and from the channel plan of the device's region. Whoever
//! holds the same three inputs derives the same beacon: the payload, the
//! frequency and the data rate.

pub mod beacon;
pub mod digest;
pub mod encoding;
pub mod entropy;
pub mod error;
pub mod region;
pub mod report;
pub mod stream;

pub use crate::beacon::Beacon;
pub use crate::beacon::MAX_BEACON_V0_PAYLOAD_SIZE;
pub use crate::beacon::MIN_BEACON_V0_PAYLOAD_SIZE;
pub use crate::entropy::Entropy;
pub use crate::error::Error;
pub use crate::region::DataRate;
pub use crate::region::RegionParameter;
pub use crate::region::BEACON_DATA_RATES;
pub use crate::report::BeaconReport;
