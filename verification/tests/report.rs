use beacon::Beacon;
use beacon::BeaconReport;
use beacon::DataRate;
use beacon::Entropy;
use beacon::Error;

fn beacon() -> Beacon {
    Beacon {
        data: vec![1, 2, 3, 4, 5],
        frequency: 904_300_000,
        datarate: DataRate::Sf9bw125,
        remote_entropy: Entropy { version: 1, timestamp: 10, data: vec![0xaa; 4] },
        local_entropy: Entropy { version: 1, timestamp: 20, data: vec![0xbb; 3] },
    }
}

#[test]
fn report_carries_the_beacon() {
    let report = BeaconReport::new(beacon(), Some(1_700_000_000_123_456_789)).unwrap();
    assert_eq!(report.pub_key, Vec::<u8>::new());
    assert_eq!(report.local_entropy, vec![0xbb; 3]);
    assert_eq!(report.remote_entropy, vec![0xaa; 4]);
    assert_eq!(report.data, vec![1, 2, 3, 4, 5]);
    assert_eq!(report.frequency, 904_300_000);
    assert_eq!(report.channel, 0);
    assert_eq!(report.datarate, DataRate::Sf9bw125);
    assert_eq!(report.tmst, 0);
    assert_eq!(report.tx_power, 27);
    assert_eq!(report.timestamp, 1_700_000_000_123_456_789);
    assert_eq!(report.signature, Vec::<u8>::new());
}

#[test]
fn report_timestamp_keeps_the_low_64_bits() {
    let report = BeaconReport::new(beacon(), Some((1u128 << 64) + 5)).unwrap();
    assert_eq!(report.timestamp, 5);
    let report = BeaconReport::new(beacon(), Some(u128::from(u64::MAX))).unwrap();
    assert_eq!(report.timestamp, u64::MAX);
    let report = BeaconReport::new(beacon(), Some(0)).unwrap();
    assert_eq!(report.timestamp, 0);
}

#[test]
fn no_report_without_a_clock() {
    assert_eq!(BeaconReport::new(beacon(), None).unwrap_err(), Error::ClockError);
}
