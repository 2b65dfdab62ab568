//! The report a device files about a beacon it has sent.

use crate::beacon::Beacon;
use crate::error::Error;
use crate::region::DataRate;
use vstd::prelude::*;

verus! {

/// The transmit power that is reported for every beacon.
pub const REPORT_TX_POWER: i32 = 27;

/// A beacon report before it is signed: what was sent, on which frequency and
/// at which data rate, both entropies' data, and when the report was made.
/// Public key, channel and signature are left for the signer to fill in.
#[derive(Debug, Clone)]
pub struct BeaconReport {
    pub pub_key: Vec<u8>,
    pub local_entropy: Vec<u8>,
    pub remote_entropy: Vec<u8>,
    pub data: Vec<u8>,
    pub frequency: u64,
    pub channel: i32,
    pub datarate: DataRate,
    pub tmst: u32,
    pub tx_power: i32,
    /// Nanoseconds since the Unix epoch at which the report was made.
    pub timestamp: u64,
    pub signature: Vec<u8>,
}

/// A [`BeaconReport`] as a mathematical value.
pub struct BeaconReportView {
    pub pub_key: Seq<u8>,
    pub local_entropy: Seq<u8>,
    pub remote_entropy: Seq<u8>,
    pub data: Seq<u8>,
    pub frequency: u64,
    pub channel: i32,
    pub datarate: DataRate,
    pub tmst: u32,
    pub tx_power: i32,
    pub timestamp: u64,
    pub signature: Seq<u8>,
}

impl View for BeaconReport {
    type V = BeaconReportView;

    open spec fn view(&self) -> BeaconReportView {
        BeaconReportView {
            pub_key: self.pub_key@,
            local_entropy: self.local_entropy@,
            remote_entropy: self.remote_entropy@,
            data: self.data@,
            frequency: self.frequency,
            channel: self.channel,
            datarate: self.datarate,
            tmst: self.tmst,
            tx_power: self.tx_power,
            timestamp: self.timestamp,
            signature: self.signature@,
        }
    }
}

/// The low 64 bits of a count of nanoseconds.
pub open spec fn report_timestamp(nanos: u128) -> u64 {
    (nanos % 0x1_0000_0000_0000_0000) as u64
}

impl BeaconReport {
    /// Makes the report for a beacon at the time the clock gave.
    ///
    /// `clock` is the time since the Unix epoch in nanoseconds, or `None` if
    /// the clock could not be read, in which case there is no report. The
    /// timestamp keeps the low 64 bits of the count.
    pub fn new(beacon: Beacon, clock: Option<u128>) -> (report: Result<BeaconReport, Error>)
        ensures
            clock is None ==> report == Err::<BeaconReport, Error>(Error::ClockError),
            clock is Some ==> report is Ok && report.unwrap()@ == (BeaconReportView {
                pub_key: Seq::empty(),
                local_entropy: beacon.local_entropy.data@,
                remote_entropy: beacon.remote_entropy.data@,
                data: beacon.data@,
                frequency: beacon.frequency,
                channel: 0,
                datarate: beacon.datarate,
                tmst: 0,
                tx_power: REPORT_TX_POWER,
                timestamp: report_timestamp(clock.unwrap()),
                signature: Seq::empty(),
            }),
    {
        let nanos = match clock {
            Some(nanos) => nanos,
            None => {
                return Err(Error::ClockError);
            },
        };
        assert(nanos as u64 == nanos % 0x1_0000_0000_0000_0000) by (bit_vector);
        Ok(
            BeaconReport {
                pub_key: Vec::new(),
                local_entropy: beacon.local_entropy.data,
                remote_entropy: beacon.remote_entropy.data,
                data: beacon.data,
                frequency: beacon.frequency,
                channel: 0,
                datarate: beacon.datarate,
                tmst: 0,
                tx_power: REPORT_TX_POWER,
                timestamp: #[verifier::truncate]
                (nanos as u64),
                signature: Vec::new(),
            },
        )
    }
}

} // verus!
