//! The ways a conversion can fail.

use vstd::prelude::*;

verus! {

/// A field that every contributing record must carry.
#[derive(Clone, Copy, Debug, PartialEq, Eq, Structural)]
pub enum RequiredField {
    /// The beacon report of a record.
    BeaconReport,
    /// The radio report inside a beacon report.
    BeaconRadio,
    /// The radio report inside a witness report.
    WitnessRadio,
}

/// Why a source file could not be converted, uploaded or cleaned up.
#[derive(Clone, Copy, Debug, PartialEq, Eq, Structural)]
pub enum ErrorKind {
    /// The source bytes are not a well-formed message.
    Decode,
    /// A record lacks a field it must carry.
    MissingRequiredField(RequiredField),
    /// A beacon location is not a number.
    LocationParse,
    /// Listing, reading or writing a store failed.
    Store,
    /// The columns do not fit the schema, or the column writer refused
    /// them.
    SchemaWrite,
    /// A trigger event without a record.
    EmptyEvent,
    /// A file key without a timestamp field.
    MalformedKey,
    /// A run in current mode that was handed no event.
    EventNotProvided,
    /// A reward period that ends at no second of the calendar.
    EndPeriod,
}

impl ErrorKind {
    /// The name of the kind, as a failure summary prints it.
    pub fn name(&self) -> (s: &'static str)
        ensures
            s@ == self.name_spec(),
    {
        match self {
            ErrorKind::Decode => "DecodeError",
            ErrorKind::MissingRequiredField(_) => "MissingRequiredField",
            ErrorKind::LocationParse => "LocationParseError",
            ErrorKind::Store => "StoreError",
            ErrorKind::SchemaWrite => "SchemaWriteError",
            ErrorKind::EmptyEvent => "EmptyEvent",
            ErrorKind::MalformedKey => "MalformedKey",
            ErrorKind::EventNotProvided => "EventNotProvided",
            ErrorKind::EndPeriod => "UnexpectedEndPeriod",
        }
    }

    /// The name of the kind.
    pub open spec fn name_spec(&self) -> Seq<char> {
        match self {
            ErrorKind::Decode => "DecodeError"@,
            ErrorKind::MissingRequiredField(_) => "MissingRequiredField"@,
            ErrorKind::LocationParse => "LocationParseError"@,
            ErrorKind::Store => "StoreError"@,
            ErrorKind::SchemaWrite => "SchemaWriteError"@,
            ErrorKind::EmptyEvent => "EmptyEvent"@,
            ErrorKind::MalformedKey => "MalformedKey"@,
            ErrorKind::EventNotProvided => "EventNotProvided"@,
            ErrorKind::EndPeriod => "UnexpectedEndPeriod"@,
        }
    }
}

/// What is said of a failed file: its key, then the name of the kind of
/// its failure.
pub open spec fn failure_text(key: Seq<char>, kind: ErrorKind) -> Seq<char> {
    key + ": "@ + kind.name_spec()
}

/// Words a failure so that it names the file and the kind of failure.
pub fn failure_message(key: &str, kind: ErrorKind) -> (message: String)
    ensures
        message@ == failure_text(key@, kind),
{
    let mut message = String::from_str(key);
    message.append(": ");
    message.append(kind.name());
    message
}

} // verus!
