//! Beacons, and how one is derived from a pair of entropies.

use crate::digest::mix;
use crate::digest::mixing_digest;
use crate::digest::DIGEST_SIZE;
use crate::encoding::decode_standard;
use crate::encoding::encode;
use crate::encoding::encode_standard;
use crate::encoding::encoded_length;
use crate::encoding::lemma_decode_inverts_encode;
use crate::encoding::lemma_encoded_length;
use crate::entropy::Entropy;
use crate::entropy::EntropyView;
use crate::error::Error;
use crate::region::data_rate_of;
use crate::region::frequency_of;
use crate::region::is_beacon_data_rate;
use crate::region::DataRate;
use crate::region::RegionParameter;
use crate::region::BEACON_DATA_RATES;
use crate::stream::choice_draw;
use crate::stream::pick;
use crate::stream::seeded;
use crate::stream::seeded_state;
use crate::stream::stream_state;
use crate::stream::uniform_draw;
use crate::stream::uniform_in;
use rand_chacha::ChaCha12Rng;
use vstd::prelude::*;

verus! {

/// The longest payload of a beacon, in bytes.
pub const MAX_BEACON_V0_PAYLOAD_SIZE: usize = 10;

/// The shortest payload of a beacon, in bytes.
pub const MIN_BEACON_V0_PAYLOAD_SIZE: usize = 5;

/// What a device transmits, and what it was derived from.
#[derive(Debug, Clone)]
pub struct Beacon {
    /// The payload: the leading bytes of the mixing digest.
    pub data: Vec<u8>,
    /// The transmit frequency in Hz, one of the region's channels.
    pub frequency: u64,
    pub datarate: DataRate,
    pub remote_entropy: Entropy,
    pub local_entropy: Entropy,
}

/// A [`Beacon`] as a mathematical value.
pub struct BeaconView {
    pub data: Seq<u8>,
    pub frequency: u64,
    pub datarate: DataRate,
    pub remote_entropy: EntropyView,
    pub local_entropy: EntropyView,
}

impl View for Beacon {
    type V = BeaconView;

    open spec fn view(&self) -> BeaconView {
        BeaconView {
            data: self.data@,
            frequency: self.frequency,
            datarate: self.datarate,
            remote_entropy: self.remote_entropy@,
            local_entropy: self.local_entropy@,
        }
    }
}

/// The three values a derivation takes from the stream, in the order taken.
pub struct Draws {
    /// Index of the channel in the region's plan.
    pub channel: nat,
    /// Length of the payload.
    pub payload_size: nat,
    /// Index of the data rate in [`BEACON_DATA_RATES`].
    pub data_rate: nat,
}

impl Draws {
    /// Whether each value lies where a draw can put it: the channel within a
    /// plan of `channels` channels, the payload size within its bounds, the
    /// data rate within [`BEACON_DATA_RATES`].
    pub open spec fn in_range(self, channels: nat) -> bool {
        &&& self.channel < channels
        &&& MIN_BEACON_V0_PAYLOAD_SIZE <= self.payload_size <= MAX_BEACON_V0_PAYLOAD_SIZE
        &&& self.data_rate < BEACON_DATA_RATES@.len()
    }
}

/// The draws made from the stream of `seed` for a plan of `channels`
/// channels: first the channel, then the payload size, then the data rate,
/// each from the state that the one before left.
pub open spec fn draws(seed: Seq<u8>, channels: nat) -> Draws {
    let channel = choice_draw(seeded_state(seed), channels);
    let payload_size = uniform_draw(
        channel.1,
        MIN_BEACON_V0_PAYLOAD_SIZE as nat,
        MAX_BEACON_V0_PAYLOAD_SIZE as nat,
        usize::BITS as nat,
    );
    let data_rate = choice_draw(payload_size.1, BEACON_DATA_RATES@.len());
    Draws { channel: channel.0, payload_size: payload_size.0, data_rate: data_rate.0 }
}

/// Whether a pair of entropy versions can be combined: the remote one is a
/// supported version, and the local one is the same.
pub open spec fn versions_accepted(remote: u32, local: u32) -> bool {
    (remote == 0 || remote == 1) && local == remote
}

/// The beacon that a valid pair of entropies and a non-empty channel plan
/// give: the digest seeds the stream, the stream decides channel, payload
/// size and data rate, and the payload is the digest cut to that size.
pub open spec fn derived_beacon(
    remote: EntropyView,
    local: EntropyView,
    region_params: Seq<RegionParameter>,
) -> BeaconView {
    let digest = mixing_digest(remote, local);
    let drawn = draws(digest.take(DIGEST_SIZE as int), region_params.len());
    BeaconView {
        data: digest.take(drawn.payload_size as int),
        frequency: region_params[drawn.channel as int].channel_frequency,
        datarate: BEACON_DATA_RATES@[drawn.data_rate as int],
        remote_entropy: remote,
        local_entropy: local,
    }
}

/// What deriving a beacon gives for any inputs.
pub open spec fn derivation(
    remote: EntropyView,
    local: EntropyView,
    region_params: Seq<RegionParameter>,
) -> Result<BeaconView, Error> {
    if !versions_accepted(remote.version, local.version) {
        Err(Error::InvalidVersion)
    } else if region_params.len() == 0 {
        Err(Error::NoRegionParameters)
    } else {
        Ok(derived_beacon(remote, local, region_params))
    }
}

/// A derivation's result as a mathematical value.
pub open spec fn outcome(result: Result<Beacon, Error>) -> Result<BeaconView, Error> {
    match result {
        Ok(beacon) => Ok(beacon@),
        Err(error) => Err(error),
    }
}

/// Whether `frequency` is that of one of the channels.
pub open spec fn is_channel_of(region_params: Seq<RegionParameter>, frequency: u64) -> bool {
    exists|i: int|
        0 <= i < region_params.len() && (#[trigger] region_params[i]).channel_frequency
            == frequency
}

/// The first 32 bytes of a digest, as a seed.
fn seed_of(digest: &Vec<u8>) -> (seed: [u8; 32])
    requires
        digest@.len() >= 32,
    ensures
        seed@ == digest@.take(32),
{
    let mut seed = [0u8; 32];
    let mut i: usize = 0;
    while i < 32
        invariant
            i <= 32,
            digest@.len() >= 32,
            forall|j: int| 0 <= j < i ==> seed@[j] == digest@[j],
        decreases 32 - i,
    {
        seed[i] = digest[i];
        i = i + 1;
    }
    assert(seed@ =~= digest@.take(32));
    seed
}

/// Chooses a channel of the plan and gives its frequency. An empty plan is
/// an error and leaves the generator untouched.
fn rand_frequency(region_params: &[RegionParameter], rng: &mut ChaCha12Rng) -> (frequency: Result<
    u64,
    Error,
>)
    ensures
        region_params@.len() == 0 ==> frequency == Err::<u64, Error>(Error::NoRegionParameters)
            && stream_state(*final(rng)) == stream_state(*old(rng)),
        region_params@.len() > 0 ==> choice_draw(
            stream_state(*old(rng)),
            region_params@.len(),
        ).0 < region_params@.len(),
        region_params@.len() > 0 ==> frequency == Ok::<u64, Error>(
            region_params@[choice_draw(
                stream_state(*old(rng)),
                region_params@.len(),
            ).0 as int].channel_frequency,
        ),
        region_params@.len() > 0 ==> stream_state(*final(rng)) == choice_draw(
            stream_state(*old(rng)),
            region_params@.len(),
        ).1,
{
    frequency_of(pick(region_params, rng))
}

/// Chooses one of the given data rates. An empty list is an error and leaves
/// the generator untouched.
fn rand_data_rate(data_rates: &[DataRate], rng: &mut ChaCha12Rng) -> (rate: Result<
    DataRate,
    Error,
>)
    ensures
        data_rates@.len() == 0 ==> rate == Err::<DataRate, Error>(Error::NoDataRate)
            && stream_state(*final(rng)) == stream_state(*old(rng)),
        data_rates@.len() > 0 ==> choice_draw(stream_state(*old(rng)), data_rates@.len()).0
            < data_rates@.len(),
        data_rates@.len() > 0 ==> rate == Ok::<DataRate, Error>(
            data_rates@[choice_draw(stream_state(*old(rng)), data_rates@.len()).0 as int],
        ),
        data_rates@.len() > 0 ==> stream_state(*final(rng)) == choice_draw(
            stream_state(*old(rng)),
            data_rates@.len(),
        ).1,
{
    data_rate_of(pick(data_rates, rng))
}

impl Beacon {
    /// Whether this beacon is one that a derivation can give: its payload is
    /// the start of the mixing digest of its entropies and has a permitted
    /// length, and its data rate is a permitted one.
    pub open spec fn well_formed(&self) -> bool {
        &&& MIN_BEACON_V0_PAYLOAD_SIZE <= self.data@.len() <= MAX_BEACON_V0_PAYLOAD_SIZE
        &&& self.data@.is_prefix_of(mixing_digest(self.remote_entropy@, self.local_entropy@))
        &&& is_beacon_data_rate(self.datarate)
    }

    /// Puts a beacon together from the digest of its entropies and the values
    /// that were chosen for it. The payload is the digest cut to
    /// `payload_size` bytes, or all of it if it has fewer.
    pub fn assemble(
        remote_entropy: Entropy,
        local_entropy: Entropy,
        digest: Vec<u8>,
        frequency: u64,
        payload_size: usize,
        datarate: DataRate,
    ) -> (beacon: Beacon)
        ensures
            beacon@ == (BeaconView {
                data: if payload_size <= digest@.len() {
                    digest@.take(payload_size as int)
                } else {
                    digest@
                },
                frequency,
                datarate,
                remote_entropy: remote_entropy@,
                local_entropy: local_entropy@,
            }),
    {
        let mut data = digest;
        data.truncate(payload_size);
        Beacon { data, frequency, datarate, remote_entropy, local_entropy }
    }

    /// Derives the beacon for a remote and a local entropy in a region.
    ///
    /// The two entropies must have the same version, 0 or 1; any other pair
    /// is an invalid version. After that, an empty channel plan is an error.
    /// Otherwise the SHA-256 digest of both entropies' data and timestamps
    /// seeds a ChaCha12 generator; from it are taken, in this order, a
    /// channel of the region, a payload size between
    /// [`MIN_BEACON_V0_PAYLOAD_SIZE`] and [`MAX_BEACON_V0_PAYLOAD_SIZE`], and a
    /// data rate out of [`BEACON_DATA_RATES`]. The payload is the digest cut
    /// to that size. The same inputs always give the same beacon.
    pub fn new(
        remote_entropy: Entropy,
        local_entropy: Entropy,
        region_params: &[RegionParameter],
    ) -> (result: Result<Beacon, Error>)
        ensures
            outcome(result) == derivation(remote_entropy@, local_entropy@, region_params@),
            result is Ok ==> draws(
                mixing_digest(remote_entropy@, local_entropy@).take(DIGEST_SIZE as int),
                region_params@.len(),
            ).in_range(region_params@.len()),
            result is Ok ==> result.unwrap().well_formed(),
            result is Ok ==> is_channel_of(region_params@, result.unwrap().frequency),
    {
        let supported = remote_entropy.version == 0 || remote_entropy.version == 1;
        if !supported || local_entropy.version != remote_entropy.version {
            return Err(Error::invalid_version());
        }
        let digest = mix(&remote_entropy, &local_entropy);
        let mut rng = seeded(seed_of(&digest));

        // The order of the draws is part of the derivation.
        let frequency = match rand_frequency(region_params, &mut rng) {
            Ok(frequency) => frequency,
            Err(error) => {
                return Err(error);
            },
        };
        let payload_size = uniform_in(
            &mut rng,
            MIN_BEACON_V0_PAYLOAD_SIZE,
            MAX_BEACON_V0_PAYLOAD_SIZE,
        );
        let datarate = match rand_data_rate(&BEACON_DATA_RATES, &mut rng) {
            Ok(datarate) => datarate,
            Err(error) => {
                return Err(error);
            },
        };
        Ok(
            Beacon::assemble(
                remote_entropy,
                local_entropy,
                digest,
                frequency,
                payload_size,
                datarate,
            ),
        )
    }

    /// The beacon's identifier: its payload in standard base64. Decoding the
    /// identifier gives the payload back.
    pub fn beacon_id(&self) -> (id: String)
        requires
            encoded_length(self.data@.len()) <= isize::MAX,
        ensures
            id@ == encode_standard(self.data@),
            id@.len() == encoded_length(self.data@.len()),
            decode_standard(id@) == Some(self.data@),
    {
        proof {
            lemma_encoded_length(self.data@);
            lemma_decode_inverts_encode(self.data@);
        }
        encode(self.data.as_slice())
    }
}

/// Whether two entropies agree in version, timestamp and every byte of data.
pub open spec fn same_entropy(a: EntropyView, b: EntropyView) -> bool {
    &&& a.version == b.version
    &&& a.timestamp == b.timestamp
    &&& a.data.len() == b.data.len()
    &&& forall|i: int| 0 <= i < a.data.len() ==> a.data[i] == b.data[i]
}

/// Whether two channel plans list the same frequencies in the same order.
pub open spec fn same_plan(a: Seq<RegionParameter>, b: Seq<RegionParameter>) -> bool {
    &&& a.len() == b.len()
    &&& forall|i: int| 0 <= i < a.len() ==> a[i].channel_frequency == b[i].channel_frequency
}

/// Deriving twice from inputs that agree byte for byte gives the same result
/// both times: the same payload, frequency and data rate, or the same error.
pub proof fn lemma_derivation_is_deterministic(
    remote_a: EntropyView,
    local_a: EntropyView,
    plan_a: Seq<RegionParameter>,
    remote_b: EntropyView,
    local_b: EntropyView,
    plan_b: Seq<RegionParameter>,
)
    requires
        same_entropy(remote_a, remote_b),
        same_entropy(local_a, local_b),
        same_plan(plan_a, plan_b),
    ensures
        derivation(remote_a, local_a, plan_a) == derivation(remote_b, local_b, plan_b),
{
    assert(remote_a.data =~= remote_b.data);
    assert(local_a.data =~= local_b.data);
    assert(plan_a =~= plan_b);
}

/// What a derivation puts on air: payload, frequency and data rate, without
/// the entropies they came from.
pub open spec fn transmission(result: Result<BeaconView, Error>) -> Result<
    (Seq<u8>, u64, DataRate),
    Error,
> {
    match result {
        Ok(beacon) => Ok((beacon.data, beacon.frequency, beacon.datarate)),
        Err(error) => Err(error),
    }
}

/// Versions 0 and 1 are derived alike: two accepted pairs of entropies with
/// the same data and timestamps put the same beacon on air, whichever of the
/// two versions each pair has.
pub proof fn lemma_versions_derive_alike(
    remote_a: EntropyView,
    local_a: EntropyView,
    remote_b: EntropyView,
    local_b: EntropyView,
    region_params: Seq<RegionParameter>,
)
    requires
        versions_accepted(remote_a.version, local_a.version),
        versions_accepted(remote_b.version, local_b.version),
        remote_a.data == remote_b.data,
        remote_a.timestamp == remote_b.timestamp,
        local_a.data == local_b.data,
        local_a.timestamp == local_b.timestamp,
    ensures
        transmission(derivation(remote_a, local_a, region_params)) == transmission(
            derivation(remote_b, local_b, region_params),
        ),
{
}

/// A remote entropy whose version is neither 0 nor 1 is rejected as an
/// invalid version, whatever else is given.
pub proof fn lemma_unsupported_version_is_rejected(
    remote: EntropyView,
    local: EntropyView,
    region_params: Seq<RegionParameter>,
)
    requires
        remote.version != 0,
        remote.version != 1,
    ensures
        derivation(remote, local, region_params) == Err::<BeaconView, Error>(
            Error::InvalidVersion,
        ),
{
}

/// With an empty channel plan, entropies of an accepted pair of versions
/// give the error for missing region parameters, whatever their data and
/// timestamps are.
pub proof fn lemma_empty_plan_is_rejected(remote: EntropyView, local: EntropyView)
    requires
        versions_accepted(remote.version, local.version),
    ensures
        derivation(remote, local, Seq::empty()) == Err::<BeaconView, Error>(
            Error::NoRegionParameters,
        ),
{
}

} // verus!
