//! File keys, stamps and the names of the files made from them.

use crate::schema::Output;
use vstd::prelude::*;

verus! {

/// The position of the first `.` of `s` at or after `from`, or the length
/// of `s` where there is none.
pub open spec fn dot_from(s: Seq<char>, from: int) -> int
    decreases s.len() - from,
{
    if from < 0 || from >= s.len() {
        s.len() as int
    } else if s[from] == '.' {
        from
    } else {
        dot_from(s, from + 1)
    }
}

/// The type token of a file key: what stands before its first `.`, or the
/// whole key where it has none.
pub open spec fn type_token(key: Seq<char>) -> Seq<char> {
    key.subrange(0, dot_from(key, 0))
}

/// The stamp of a file key: its second field when split at `.`. A key
/// without a `.` has no stamp.
pub open spec fn stamp_token(key: Seq<char>) -> Option<Seq<char>> {
    let first = dot_from(key, 0);
    if first >= key.len() {
        None
    } else {
        Some(key.subrange(first + 1, dot_from(key, first + 1)))
    }
}

/// The type of the records a source file holds, as its key declares it.
#[derive(Clone, Copy, Debug, PartialEq, Eq, Structural)]
pub enum FileType {
    /// Verified proof-of-coverage events.
    IotPoc,
    /// Beacon reports as ingested.
    IotBeaconIngestReport,
    /// Witness reports as ingested.
    IotWitnessIngestReport,
    /// Reward shares of gateways.
    GatewayRewardShare,
}

impl FileType {
    /// The type token that names this type in a file key.
    pub open spec fn token(self) -> Seq<char> {
        match self {
            FileType::IotPoc => "iot_poc"@,
            FileType::IotBeaconIngestReport => "iot_beacon_ingest_report"@,
            FileType::IotWitnessIngestReport => "iot_witness_ingest_report"@,
            FileType::GatewayRewardShare => "gateway_reward_share"@,
        }
    }

    /// The type a token names, if it names one.
    pub open spec fn of_token(token: Seq<char>) -> Option<FileType> {
        if token == FileType::IotPoc.token() {
            Some(FileType::IotPoc)
        } else if token == FileType::IotBeaconIngestReport.token() {
            Some(FileType::IotBeaconIngestReport)
        } else if token == FileType::IotWitnessIngestReport.token() {
            Some(FileType::IotWitnessIngestReport)
        } else if token == FileType::GatewayRewardShare.token() {
            Some(FileType::GatewayRewardShare)
        } else {
            None
        }
    }

    /// The type token that names this type in a file key.
    pub fn as_str(self) -> (text: &'static str)
        ensures
            text@ == self.token(),
    {
        match self {
            FileType::IotPoc => "iot_poc",
            FileType::IotBeaconIngestReport => "iot_beacon_ingest_report",
            FileType::IotWitnessIngestReport => "iot_witness_ingest_report",
            FileType::GatewayRewardShare => "gateway_reward_share",
        }
    }

    /// The type a token names, if it names one.
    pub fn from_token(token: &str) -> (t: Option<FileType>)
        ensures
            t == FileType::of_token(token@),
    {
        if same_text(token, FileType::IotPoc.as_str()) {
            Some(FileType::IotPoc)
        } else if same_text(token, FileType::IotBeaconIngestReport.as_str()) {
            Some(FileType::IotBeaconIngestReport)
        } else if same_text(token, FileType::IotWitnessIngestReport.as_str()) {
            Some(FileType::IotWitnessIngestReport)
        } else if same_text(token, FileType::GatewayRewardShare.as_str()) {
            Some(FileType::GatewayRewardShare)
        } else {
            None
        }
    }
}

/// Whether two texts hold the same characters.
pub fn same_text(a: &str, b: &str) -> (same: bool)
    ensures
        same == (a@ == b@),
{
    let n = a.unicode_len();
    if n != b.unicode_len() {
        return false;
    }
    let mut i: usize = 0;
    while i < n
        invariant
            n == a@.len(),
            n == b@.len(),
            i <= n,
            forall|k: int| 0 <= k < i ==> a@[k] == b@[k],
        decreases n - i,
    {
        if a.get_char(i) != b.get_char(i) {
            return false;
        }
        i = i + 1;
    }
    assert(a@ =~= b@);
    true
}

/// The position of the first `.` of `s` at or after `from`, or the length
/// of `s` where there is none.
fn find_dot(s: &str, from: usize) -> (at: usize)
    requires
        from <= s@.len(),
    ensures
        at == dot_from(s@, from as int),
        from <= at <= s@.len(),
{
    let n = s.unicode_len();
    let mut i: usize = from;
    while i < n
        invariant
            n == s@.len(),
            from <= i <= n,
            dot_from(s@, from as int) == dot_from(s@, i as int),
        decreases n - i,
    {
        if s.get_char(i) == '.' {
            return i;
        }
        i = i + 1;
    }
    i
}

/// The type token of a file key.
pub fn type_of_key(key: &str) -> (token: String)
    ensures
        token@ == type_token(key@),
{
    let end = find_dot(key, 0);
    String::from_str(key.substring_char(0, end))
}

/// The stamp of a file key, if it has one.
pub fn stamp_of_key(key: &str) -> (stamp: Option<String>)
    ensures
        match stamp {
            Some(s) => stamp_token(key@) == Some(s@),
            None => stamp_token(key@) is None,
        },
{
    let n = key.unicode_len();
    let first = find_dot(key, 0);
    if first >= n {
        return None;
    }
    let second = find_dot(key, first + 1);
    Some(String::from_str(key.substring_char(first + 1, second)))
}

/// The name of the local file of one output of a source file: the stem of
/// the output, the stamp of the source file, and the extension.
pub open spec fn file_name_text(output: Output, stamp: Seq<char>) -> Seq<char> {
    output.stem_text() + "."@ + stamp + ".parquet"@
}

/// The path of that local file under the cache directory.
pub open spec fn local_path_text(cache: Seq<char>, output: Output, stamp: Seq<char>) -> Seq<
    char,
> {
    "/"@ + cache + "/"@ + file_name_text(output, stamp)
}

/// The key under which that file is stored at the destination: the folder
/// of the output, then the local file's own name.
pub open spec fn destination_key_text(output: Output, stamp: Seq<char>) -> Seq<char> {
    output.folder_text() + "/"@ + file_name_text(output, stamp)
}

/// The name of the local file of one output of a source file.
pub fn file_name(output: Output, stamp: &str) -> (name: String)
    ensures
        name@ == file_name_text(output, stamp@),
{
    let mut name = String::from_str(output.stem());
    name.append(".");
    name.append(stamp);
    name.append(".parquet");
    name
}

/// The path of the local file of one output of a source file.
pub fn local_path(cache: &str, output: Output, stamp: &str) -> (path: String)
    ensures
        path@ == local_path_text(cache@, output, stamp@),
{
    let mut path = String::from_str("/");
    path.append(cache);
    path.append("/");
    let name = file_name(output, stamp);
    path.append(name.as_str());
    assert(path@ =~= local_path_text(cache@, output, stamp@));
    path
}

/// The paths of the two local files made from one source file: the beacon
/// output first, then the witness output. The same stamp always gives the
/// same paths, so converting a file again writes over what was there.
pub fn output_paths(cache: &str, stamp: &str) -> (paths: (String, String))
    ensures
        paths.0@ == local_path_text(cache@, Output::Beacon, stamp@),
        paths.1@ == local_path_text(cache@, Output::Witness, stamp@),
{
    (local_path(cache, Output::Beacon, stamp), local_path(cache, Output::Witness, stamp))
}

/// The key under which the file of one output is stored at the
/// destination.
pub fn destination_key(output: Output, stamp: &str) -> (key: String)
    ensures
        key@ == destination_key_text(output, stamp@),
{
    let mut key = String::from_str(output.folder());
    key.append("/");
    let name = file_name(output, stamp);
    key.append(name.as_str());
    assert(key@ =~= destination_key_text(output, stamp@));
    key
}

/// A source file as its key describes it.
#[derive(Debug, PartialEq, Eq)]
pub struct SourceFile {
    /// The key of the file in the source store.
    pub key: String,
    /// The type of its records.
    pub file_type: FileType,
    /// Its stamp, which the names of its output files carry.
    pub stamp: String,
}

/// Whether a key describes a source file: its type token names a type and
/// it has a stamp.
pub open spec fn describes_file(key: Seq<char>) -> bool {
    FileType::of_token(type_token(key)) is Some && stamp_token(key) is Some
}

impl SourceFile {
    /// Reads a source file's description off its key, where the key holds
    /// one.
    pub fn parse(key: &str) -> (file: Option<SourceFile>)
        ensures
            file is Some == describes_file(key@),
            file matches Some(f) ==> f.key@ == key@ && Some(f.file_type) == FileType::of_token(
                type_token(key@),
            ) && Some(f.stamp@) == stamp_token(key@),
    {
        let token = type_of_key(key);
        let file_type = match FileType::from_token(token.as_str()) {
            Some(t) => t,
            None => {
                return None;
            },
        };
        let stamp = match stamp_of_key(key) {
            Some(s) => s,
            None => {
                return None;
            },
        };
        Some(SourceFile { key: String::from_str(key), file_type, stamp })
    }
}

} // verus!
