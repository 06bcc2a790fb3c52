//! Decoded proof-of-coverage records, as the conversion reads them.

use vstd::prelude::*;

verus! {

/// What a beaconing device reported of its own transmission.
#[derive(Debug, PartialEq, Eq)]
pub struct BeaconRadio {
    /// The public key of the beaconer.
    pub pub_key: Vec<u8>,
    /// The entropy the beaconer drew itself.
    pub local_entropy: Vec<u8>,
    /// The entropy the beaconer was given.
    pub remote_entropy: Vec<u8>,
    /// The payload of the beacon.
    pub data: Vec<u8>,
    /// The transmit frequency.
    pub frequency: u64,
    /// The transmit channel.
    pub channel: i32,
    /// The data rate, by its number.
    pub datarate: i32,
    /// The transmit power.
    pub tx_power: i32,
    /// The device's timestamp of the transmission.
    pub timestamp: u64,
    /// The beaconer's signature over the report.
    pub signature: Vec<u8>,
    /// The device's packet counter.
    pub tmst: u32,
}

/// A beacon report as it was received and verified.
#[derive(Debug, PartialEq, Eq)]
pub struct BeaconReport {
    /// When the report was received.
    pub received_timestamp: u64,
    /// The beaconer's location, as decimal text.
    pub location: String,
    /// The scale of the beaconer's hex.
    pub hex_scale: u32,
    /// The device's own report.
    pub report: Option<BeaconRadio>,
    /// The reward units of the beacon.
    pub reward_unit: u32,
}

/// What a witnessing device reported of a beacon it heard.
#[derive(Debug, PartialEq, Eq)]
pub struct WitnessRadio {
    /// The public key of the witness.
    pub pub_key: Vec<u8>,
    /// The payload that was heard.
    pub data: Vec<u8>,
    /// The device's timestamp of the reception.
    pub timestamp: u64,
    /// The device's packet counter.
    pub tmst: u32,
    /// The received signal strength.
    pub signal: i32,
    /// The signal-to-noise ratio.
    pub snr: i32,
    /// The receive frequency.
    pub frequency: u64,
    /// The data rate, by its number.
    pub datarate: i32,
    /// The witness's signature over the report.
    pub signature: Vec<u8>,
}

/// A witness report as it was received and verified.
#[derive(Debug, PartialEq, Eq)]
pub struct WitnessReport {
    /// When the report was received.
    pub received_timestamp: u64,
    /// The witness's location, as decimal text.
    pub location: String,
    /// The device's own report.
    pub report: Option<WitnessRadio>,
}

/// One proof-of-coverage event: a beacon and the witnesses that heard it,
/// split by upstream selection.
#[derive(Debug, PartialEq, Eq)]
pub struct PocRecord {
    /// The identifier of the event.
    pub poc_id: Vec<u8>,
    /// The beacon report.
    pub beacon_report: Option<BeaconReport>,
    /// The witnesses selected to count.
    pub selected_witnesses: Vec<WitnessReport>,
    /// The witnesses left out.
    pub unselected_witnesses: Vec<WitnessReport>,
}

/// A beacon report as it was ingested, before verification.
#[derive(Debug, PartialEq, Eq)]
pub struct BeaconIngest {
    /// When the report was received.
    pub received_timestamp: u64,
    /// The device's own report.
    pub report: Option<BeaconRadio>,
}

/// A witness report as it was ingested, before verification.
#[derive(Debug, PartialEq, Eq)]
pub struct WitnessIngest {
    /// When the report was received.
    pub received_timestamp: u64,
    /// The device's own report.
    pub report: Option<WitnessRadio>,
}

/// The share of a gateway in the rewards of one period.
#[derive(Debug, PartialEq, Eq)]
pub struct RewardShare {
    /// The public key of the gateway.
    pub hotspot_key: Vec<u8>,
    /// The amount earned by beaconing.
    pub beacon_amount: u64,
    /// The amount earned by witnessing.
    pub witness_amount: u64,
    /// The start of the period, in seconds since the epoch.
    pub start_period: u64,
    /// The end of the period, in seconds since the epoch.
    pub end_period: u64,
}

} // verus!
