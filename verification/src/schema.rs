//! The schemas: their columns in declared order, and where the files of
//! the two outputs go.

use crate::column::ColumnKind;
use vstd::prelude::*;

verus! {

/// The message type of the beacon output.
pub const BEACON_MESSAGE_TYPE: &'static str = "
message schema {
    REQUIRED BYTE_ARRAY poc_id;
    REQUIRED INT64 ingest_time;
    REQUIRED INT64 beacon_location;
    REQUIRED BYTE_ARRAY pub_key;
    REQUIRED INT64 frequency;
    REQUIRED INT32 channel;
    REQUIRED INT32 tx_power;
    REQUIRED INT64 timestamp;
    REQUIRED INT32 tmst;
}";

/// The message type of the witness output.
pub const WITNESS_MESSAGE_TYPE: &'static str = "
message schema {
    required byte_array poc_id;
    required byte_array pub_key;
    required int64 ingest_time;
    required int64 witness_location;
    required int64 timestamp;
    required int32 tmst;
    required int32 signal;
    required int32 snr;
    required int64 frequency;
    required boolean selected;
}";

/// The message type of the reward share report.
pub const REWARD_SHARE_MESSAGE_TYPE: &'static str = "
    message schema {
        REQUIRED BYTE_ARRAY hotspot_key (UTF8);
        REQUIRED INT64 beacon_amount;
        REQUIRED INT64 witness_amount;
        REQUIRED INT64 start_period;
        REQUIRED INT64 end_period;
    }
    ";

/// The message type of the beacon ingest report.
pub const BEACON_INGEST_MESSAGE_TYPE: &'static str = "
    message schema {
        REQUIRED INT64 ingest_timestamp;
        REQUIRED BYTE_ARRAY pub_key (UTF8);
        REQUIRED BYTE_ARRAY local_entropy (UTF8);
        REQUIRED BYTE_ARRAY remote_entropy (UTF8);
        REQUIRED BYTE_ARRAY data (UTF8);

        REQUIRED INT64 frequency;
        REQUIRED INT32 channel;
        REQUIRED INT32 datarate;

        REQUIRED INT32 tx_power;
        REQUIRED INT64 hotspot_timestamp;
        REQUIRED BYTE_ARRAY signature (UTF8);
        REQUIRED INT32 tmst;
    }
    ";

/// The message type of the witness ingest report.
pub const WITNESS_INGEST_MESSAGE_TYPE: &'static str = "
    message schema {
        REQUIRED INT64 ingest_timestamp;

        REQUIRED BYTE_ARRAY pub_key (UTF8);
        REQUIRED BYTE_ARRAY data (UTF8);

        REQUIRED INT64 hotspot_timestamp;
        REQUIRED INT32 tmst;

        REQUIRED INT32 signal;
        REQUIRED INT32 snr;

        REQUIRED INT64 frequency;
        REQUIRED INT32 datarate;
        REQUIRED BYTE_ARRAY signature (UTF8);

    }
    ";

/// The message type of the valid beacon report.
pub const VALID_BEACON_MESSAGE_TYPE: &'static str = "
    message schema {
        REQUIRED INT64 received_timestamp;
        REQUIRED BYTE_ARRAY location (UTF8);
        REQUIRED INT32 hex_scale;

        REQUIRED BYTE_ARRAY pub_key (UTF8);
        REQUIRED BYTE_ARRAY local_entropy (UTF8);
        REQUIRED BYTE_ARRAY remote_entropy (UTF8);
        REQUIRED BYTE_ARRAY data (UTF8);
        REQUIRED INT64 frequency;
        REQUIRED INT32 channel;
        REQUIRED INT32 datarate;
        REQUIRED INT32 tx_power;
        REQUIRED INT64 hotspot_timestamp;
        REQUIRED BYTE_ARRAY signature (UTF8);
        REQUIRED INT32 tmst;

        REQUIRED INT32 reward_unit;
    }
    ";

/// A report that lays one kind of source record out in columns, one row
/// per record.
#[derive(Clone, Copy, Debug, PartialEq, Eq, Structural)]
pub enum Report {
    /// Reward shares of gateways.
    RewardShare,
    /// Beacon reports as ingested.
    BeaconIngest,
    /// Witness reports as ingested.
    WitnessIngest,
    /// The beacon reports of proof-of-coverage events, in full.
    ValidBeacon,
}

impl Report {
    /// The kinds of the columns, in declared order.
    pub open spec fn column_kinds(self) -> Seq<ColumnKind> {
        match self {
            Report::RewardShare => seq![
                ColumnKind::Bytes,
                ColumnKind::Int64,
                ColumnKind::Int64,
                ColumnKind::Int64,
                ColumnKind::Int64,
            ],
            Report::BeaconIngest => seq![
                ColumnKind::Int64,
                ColumnKind::Bytes,
                ColumnKind::Bytes,
                ColumnKind::Bytes,
                ColumnKind::Bytes,
                ColumnKind::Int64,
                ColumnKind::Int32,
                ColumnKind::Int32,
                ColumnKind::Int32,
                ColumnKind::Int64,
                ColumnKind::Bytes,
                ColumnKind::Int32,
            ],
            Report::WitnessIngest => seq![
                ColumnKind::Int64,
                ColumnKind::Bytes,
                ColumnKind::Bytes,
                ColumnKind::Int64,
                ColumnKind::Int32,
                ColumnKind::Int32,
                ColumnKind::Int32,
                ColumnKind::Int64,
                ColumnKind::Int32,
                ColumnKind::Bytes,
            ],
            Report::ValidBeacon => seq![
                ColumnKind::Int64,
                ColumnKind::Bytes,
                ColumnKind::Int32,
                ColumnKind::Bytes,
                ColumnKind::Bytes,
                ColumnKind::Bytes,
                ColumnKind::Bytes,
                ColumnKind::Int64,
                ColumnKind::Int32,
                ColumnKind::Int32,
                ColumnKind::Int32,
                ColumnKind::Int64,
                ColumnKind::Bytes,
                ColumnKind::Int32,
                ColumnKind::Int32,
            ],
        }
    }

    /// The message type that declares the columns to the column writer.
    pub open spec fn message_text(self) -> Seq<char> {
        match self {
            Report::RewardShare => REWARD_SHARE_MESSAGE_TYPE@,
            Report::BeaconIngest => BEACON_INGEST_MESSAGE_TYPE@,
            Report::WitnessIngest => WITNESS_INGEST_MESSAGE_TYPE@,
            Report::ValidBeacon => VALID_BEACON_MESSAGE_TYPE@,
        }
    }

    /// The kinds of the columns, in declared order.
    pub fn kinds(self) -> (kinds: Vec<ColumnKind>)
        ensures
            kinds@ == self.column_kinds(),
    {
        let kinds = match self {
            Report::RewardShare => vec![
                ColumnKind::Bytes,
                ColumnKind::Int64,
                ColumnKind::Int64,
                ColumnKind::Int64,
                ColumnKind::Int64,
            ],
            Report::BeaconIngest => vec![
                ColumnKind::Int64,
                ColumnKind::Bytes,
                ColumnKind::Bytes,
                ColumnKind::Bytes,
                ColumnKind::Bytes,
                ColumnKind::Int64,
                ColumnKind::Int32,
                ColumnKind::Int32,
                ColumnKind::Int32,
                ColumnKind::Int64,
                ColumnKind::Bytes,
                ColumnKind::Int32,
            ],
            Report::WitnessIngest => vec![
                ColumnKind::Int64,
                ColumnKind::Bytes,
                ColumnKind::Bytes,
                ColumnKind::Int64,
                ColumnKind::Int32,
                ColumnKind::Int32,
                ColumnKind::Int32,
                ColumnKind::Int64,
                ColumnKind::Int32,
                ColumnKind::Bytes,
            ],
            Report::ValidBeacon => vec![
                ColumnKind::Int64,
                ColumnKind::Bytes,
                ColumnKind::Int32,
                ColumnKind::Bytes,
                ColumnKind::Bytes,
                ColumnKind::Bytes,
                ColumnKind::Bytes,
                ColumnKind::Int64,
                ColumnKind::Int32,
                ColumnKind::Int32,
                ColumnKind::Int32,
                ColumnKind::Int64,
                ColumnKind::Bytes,
                ColumnKind::Int32,
                ColumnKind::Int32,
            ],
        };
        assert(kinds@ =~= self.column_kinds());
        kinds
    }

    /// The message type that declares the columns to the column writer.
    pub fn message_type(self) -> (text: &'static str)
        ensures
            text@ == self.message_text(),
    {
        match self {
            Report::RewardShare => REWARD_SHARE_MESSAGE_TYPE,
            Report::BeaconIngest => BEACON_INGEST_MESSAGE_TYPE,
            Report::WitnessIngest => WITNESS_INGEST_MESSAGE_TYPE,
            Report::ValidBeacon => VALID_BEACON_MESSAGE_TYPE,
        }
    }
}

/// Whether a text is one of the message types declared here.
pub open spec fn is_message_type(text: Seq<char>) -> bool {
    ||| text == Output::Beacon.message_text()
    ||| text == Output::Witness.message_text()
    ||| text == Report::RewardShare.message_text()
    ||| text == Report::BeaconIngest.message_text()
    ||| text == Report::WitnessIngest.message_text()
    ||| text == Report::ValidBeacon.message_text()
}

/// The logical kind of an output file.
#[derive(Clone, Copy, Debug, PartialEq, Eq, Structural)]
pub enum Output {
    /// One row per contributing record.
    Beacon,
    /// One row per witness of a contributing record.
    Witness,
}

impl Output {
    /// The kinds of the columns, in declared order.
    pub open spec fn column_kinds(self) -> Seq<ColumnKind> {
        match self {
            Output::Beacon => seq![
                ColumnKind::Bytes,
                ColumnKind::Int64,
                ColumnKind::Int64,
                ColumnKind::Bytes,
                ColumnKind::Int64,
                ColumnKind::Int32,
                ColumnKind::Int32,
                ColumnKind::Int64,
                ColumnKind::Int32,
            ],
            Output::Witness => seq![
                ColumnKind::Bytes,
                ColumnKind::Bytes,
                ColumnKind::Int64,
                ColumnKind::Int64,
                ColumnKind::Int64,
                ColumnKind::Int32,
                ColumnKind::Int32,
                ColumnKind::Int32,
                ColumnKind::Int64,
                ColumnKind::Bool,
            ],
        }
    }

    /// The message type that declares the columns to the column writer.
    pub open spec fn message_text(self) -> Seq<char> {
        match self {
            Output::Beacon => BEACON_MESSAGE_TYPE@,
            Output::Witness => WITNESS_MESSAGE_TYPE@,
        }
    }

    /// The folder of the destination store that files of this kind go to.
    pub open spec fn folder_text(self) -> Seq<char> {
        match self {
            Output::Beacon => "valid_beacon"@,
            Output::Witness => "valid_witness"@,
        }
    }

    /// The first part of the name of a local file of this kind.
    pub open spec fn stem_text(self) -> Seq<char> {
        match self {
            Output::Beacon => "valid_beacons"@,
            Output::Witness => "valid_witnesses"@,
        }
    }

    /// The folder of the destination store that files of this kind go to.
    pub fn folder(self) -> (text: &'static str)
        ensures
            text@ == self.folder_text(),
    {
        match self {
            Output::Beacon => "valid_beacon",
            Output::Witness => "valid_witness",
        }
    }

    /// The first part of the name of a local file of this kind.
    pub fn stem(self) -> (text: &'static str)
        ensures
            text@ == self.stem_text(),
    {
        match self {
            Output::Beacon => "valid_beacons",
            Output::Witness => "valid_witnesses",
        }
    }

    /// The kinds of the columns, in declared order.
    pub fn kinds(self) -> (kinds: Vec<ColumnKind>)
        ensures
            kinds@ == self.column_kinds(),
    {
        let kinds = match self {
            Output::Beacon => vec![
                ColumnKind::Bytes,
                ColumnKind::Int64,
                ColumnKind::Int64,
                ColumnKind::Bytes,
                ColumnKind::Int64,
                ColumnKind::Int32,
                ColumnKind::Int32,
                ColumnKind::Int64,
                ColumnKind::Int32,
            ],
            Output::Witness => vec![
                ColumnKind::Bytes,
                ColumnKind::Bytes,
                ColumnKind::Int64,
                ColumnKind::Int64,
                ColumnKind::Int64,
                ColumnKind::Int32,
                ColumnKind::Int32,
                ColumnKind::Int32,
                ColumnKind::Int64,
                ColumnKind::Bool,
            ],
        };
        assert(kinds@ =~= self.column_kinds());
        kinds
    }

    /// The message type that declares the columns to the column writer.
    pub fn message_type(self) -> (text: &'static str)
        ensures
            text@ == self.message_text(),
    {
        match self {
            Output::Beacon => BEACON_MESSAGE_TYPE,
            Output::Witness => WITNESS_MESSAGE_TYPE,
        }
    }
}

} // verus!
