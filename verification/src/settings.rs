//! The settings of a run and their defaults.

use vstd::prelude::*;

verus! {

/// The default log filter.
pub fn default_log() -> (value: String)
    ensures
        value@ == "oracle_ingestor_lambda=debug"@,
{
    String::from_str("oracle_ingestor_lambda=debug")
}

/// The default cache directory, where output files wait for their upload.
pub fn default_cache() -> (value: String)
    ensures
        value@ == "/tmp"@,
{
    String::from_str("/tmp")
}

/// The default bucket of the destination store.
pub fn default_output_bucket() -> (value: String)
    ensures
        value@ == "oracle-parquet-test"@,
{
    String::from_str("oracle-parquet-test")
}

/// The default region of the destination store.
pub fn default_output_region() -> (value: String)
    ensures
        value@ == "us-west-2"@,
{
    String::from_str("us-west-2")
}

/// Where a store of source files is found.
#[derive(Debug, PartialEq, Eq)]
pub struct StoreSettings {
    /// The region of the bucket.
    pub region: String,
    /// The bucket.
    pub bucket: String,
    /// The endpoint, where it is not the region's own.
    pub endpoint: Option<String>,
}

/// The settings of a run.
#[derive(Debug, PartialEq, Eq)]
pub struct Settings {
    /// The log filter.
    pub log: String,
    /// The store of the source files.
    pub ingest: StoreSettings,
    /// The cache directory for output files before their upload.
    pub cache: String,
    /// The bucket of the destination store.
    pub output_bucket: String,
    /// The region of the destination store.
    pub output_region: String,
    /// The endpoint of the destination store, where it is not the
    /// region's own.
    pub output_endpoint: Option<String>,
}

/// The text of a setting: the value given, or the default.
pub open spec fn setting_text(given: Option<String>, default: Seq<char>) -> Seq<char> {
    match given {
        Some(text) => text@,
        None => default,
    }
}

/// The endpoint text of a setting, if one is given.
pub open spec fn endpoint_text(endpoint: Option<String>) -> Option<Seq<char>> {
    match endpoint {
        Some(text) => Some(text@),
        None => None,
    }
}

impl Settings {
    /// Settings from the values that were configured, with the default in
    /// place of each value that was not.
    pub fn new(
        ingest: StoreSettings,
        log: Option<String>,
        cache: Option<String>,
        output_bucket: Option<String>,
        output_region: Option<String>,
        output_endpoint: Option<String>,
    ) -> (settings: Settings)
        ensures
            settings.ingest == ingest,
            settings.log@ == setting_text(log, "oracle_ingestor_lambda=debug"@),
            settings.cache@ == setting_text(cache, "/tmp"@),
            settings.output_bucket@ == setting_text(output_bucket, "oracle-parquet-test"@),
            settings.output_region@ == setting_text(output_region, "us-west-2"@),
            settings.output_endpoint == output_endpoint,
    {
        Settings {
            log: match log {
                Some(text) => text,
                None => default_log(),
            },
            ingest,
            cache: match cache {
                Some(text) => text,
                None => default_cache(),
            },
            output_bucket: match output_bucket {
                Some(text) => text,
                None => default_output_bucket(),
            },
            output_region: match output_region {
                Some(text) => text,
                None => default_output_region(),
            },
            output_endpoint,
        }
    }
}

} // verus!
