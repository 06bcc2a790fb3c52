//! The current run: one event, one source file.

use crate::error::ErrorKind;
use crate::naming::stamp_token;
use crate::naming::type_token;
use crate::naming::FileType;
use crate::naming::SourceFile;
use crate::settings::StoreSettings;
use vstd::prelude::*;

verus! {

/// What one record of a trigger event says of the file that appeared.
#[derive(Debug, PartialEq, Eq)]
pub struct TriggerRecord {
    /// The bucket that holds the file.
    pub bucket: String,
    /// The key of the file.
    pub key: String,
    /// The region of the bucket.
    pub region: String,
}

/// What to do about a trigger event.
#[derive(Debug, PartialEq, Eq)]
pub enum TriggerPlan {
    /// The file is of no type that is converted here: nothing is to be
    /// done.
    Skip,
    /// Convert the file, reading it from the store.
    Convert { store: StoreSettings, file: SourceFile },
}

/// Whether a key is that of a proof-of-coverage file.
pub open spec fn is_poc_key(key: Seq<char>) -> bool {
    FileType::of_token(type_token(key)) == Some(FileType::IotPoc)
}

/// Whether `answer` is what a trigger event with these records calls for,
/// going by the first record alone.
///
/// An event without a record is an error. A file of any type but
/// proof-of-coverage is skipped. A proof-of-coverage file is converted,
/// read from the bucket and region that the record names; if its key
/// holds no stamp that is an error.
pub open spec fn is_answer(answer: Result<TriggerPlan, ErrorKind>, records: Seq<TriggerRecord>)
    -> bool {
    if records.len() == 0 {
        answer == Err::<TriggerPlan, ErrorKind>(ErrorKind::EmptyEvent)
    } else if !is_poc_key(records[0].key@) {
        answer matches Ok(TriggerPlan::Skip)
    } else if stamp_token(records[0].key@) is None {
        answer == Err::<TriggerPlan, ErrorKind>(ErrorKind::MalformedKey)
    } else {
        answer matches Ok(TriggerPlan::Convert { store, file }) && store.bucket@
            == records[0].bucket@ && store.region@ == records[0].region@ && store.endpoint
            is None && file.key@ == records[0].key@ && file.file_type == FileType::IotPoc
            && Some(file.stamp@) == stamp_token(records[0].key@)
    }
}

/// Decides what to do about a trigger event, going by its first record
/// alone: the answer is the one that [`is_answer`] describes.
pub fn handle_event(records: &Vec<TriggerRecord>) -> (r: Result<TriggerPlan, ErrorKind>)
    ensures
        is_answer(r, records@),
{
    if records.len() == 0 {
        return Err(ErrorKind::EmptyEvent);
    }
    let record = &records[0];
    let token = crate::naming::type_of_key(record.key.as_str());
    match FileType::from_token(token.as_str()) {
        Some(FileType::IotPoc) => {},
        _ => {
            return Ok(TriggerPlan::Skip);
        },
    }
    let file = match SourceFile::parse(record.key.as_str()) {
        Some(file) => file,
        None => {
            return Err(ErrorKind::MalformedKey);
        },
    };
    let store = StoreSettings {
        region: record.region.clone(),
        bucket: record.bucket.clone(),
        endpoint: None,
    };
    Ok(TriggerPlan::Convert { store, file })
}

} // verus!
