//! The handler: a run in one of two modes.

use crate::error::ErrorKind;
use crate::orchestrator::Orchestrator;
use crate::orchestrator::Phase;
use crate::settings::Settings;
use crate::trigger::handle_event;
use crate::trigger::is_answer;
use crate::trigger::TriggerPlan;
use crate::trigger::TriggerRecord;
use http::uri::InvalidUri;
use http::Uri;
use std::str::FromStr;
use vstd::prelude::*;

verus! {

/// How many files a historical run keeps in work at once.
pub const LOADER_WORKERS: usize = 2;

/// The URI type of the `http` crate.
#[verifier::external_type_specification]
#[verifier::external_body]
pub struct ExUri(Uri);

/// The error of the `http` crate for text that is no URI.
#[verifier::external_type_specification]
#[verifier::external_body]
pub struct ExInvalidUri(InvalidUri);

/// Whether the `http` crate reads a text as a URI.
pub uninterp spec fn uri_accepts(text: Seq<char>) -> bool;

/// Calls `Uri::from_str` of the `http` crate. Whether it succeeds depends
/// on the text alone.
#[verifier::external_body]
fn parse_uri(text: &str) -> (r: Result<Uri, InvalidUri>)
    ensures
        r is Ok == uri_accepts(text@),
{
    Uri::from_str(text)
}

/// Why a handler could not be made.
#[derive(Clone, Copy, Debug, PartialEq, Eq, Structural)]
pub enum DecodeError {
    /// The endpoint of the destination store is no URI.
    Uri,
}

/// The mode of a run, with its times in milliseconds since the epoch.
#[derive(Clone, Copy, Debug, PartialEq, Eq, Structural)]
pub enum Mode {
    /// Convert every source file of the window that ends before the first
    /// time and starts at the second.
    Historical(i64, i64),
    /// Convert the one file that a trigger event names.
    Current(i64),
}

/// What a run is to do.
#[derive(Debug, PartialEq, Eq)]
pub enum Run {
    /// Carry out the plan for one trigger event.
    Current(TriggerPlan),
    /// Drive a historical run, which has not started yet.
    Historical(Orchestrator),
}

/// A run's settings and mode, with the endpoint of the destination store
/// read as a URI.
#[derive(Debug, PartialEq, Eq)]
pub struct Handler {
    mode: Mode,
    settings: Settings,
    endpoint: Option<Uri>,
}

impl Handler {
    /// The mode of the run.
    pub closed spec fn mode(&self) -> Mode {
        self.mode
    }

    /// The settings of the run.
    pub closed spec fn settings(&self) -> Settings {
        self.settings
    }

    /// Whether the run has an endpoint of its own for the destination
    /// store.
    pub closed spec fn has_endpoint(&self) -> bool {
        self.endpoint is Some
    }

    /// A handler for a run. It is refused where the settings name an
    /// endpoint for the destination store that is no URI.
    pub fn new(settings: Settings, mode: Mode) -> (r: Result<Handler, DecodeError>)
        ensures
            r is Ok == match settings.output_endpoint {
                Some(text) => uri_accepts(text@),
                None => true,
            },
            r matches Ok(h) ==> h.mode() == mode && h.settings() == settings && h.has_endpoint()
                == settings.output_endpoint is Some,
    {
        let endpoint = match &settings.output_endpoint {
            Some(text) => match parse_uri(text.as_str()) {
                Ok(uri) => Some(uri),
                Err(_) => {
                    return Err(DecodeError::Uri);
                },
            },
            None => None,
        };
        Ok(Handler { mode, settings, endpoint })
    }

    /// The mode of the run.
    pub fn run_mode(&self) -> (mode: Mode)
        ensures
            mode == self.mode(),
    {
        self.mode
    }

    /// The settings of the run.
    pub fn run_settings(&self) -> (settings: &Settings)
        ensures
            *settings == self.settings(),
    {
        &self.settings
    }

    /// The endpoint of the destination store, where the settings name one.
    pub fn endpoint(&self) -> (uri: Option<&Uri>)
        ensures
            uri is Some == self.has_endpoint(),
    {
        match &self.endpoint {
            Some(uri) => Some(uri),
            None => None,
        }
    }

    /// Decides what the run is to do.
    ///
    /// In current mode the event is needed, and the answer to it is the
    /// one that [`handle_event`] gives for its records. In historical mode
    /// the event is left aside and the result is a run that has not
    /// started, over the window of the mode and bounded by
    /// [`LOADER_WORKERS`].
    pub fn run(&self, event: Option<&Vec<TriggerRecord>>) -> (r: Result<Run, ErrorKind>)
        ensures
            self.mode() is Current && event is None ==> r == Err::<Run, ErrorKind>(
                ErrorKind::EventNotProvided,
            ),
            self.mode() is Current && event is Some ==> match r {
                Ok(Run::Current(plan)) => is_answer(Ok(plan), event->0@),
                Ok(Run::Historical(_)) => false,
                Err(e) => is_answer(Err(e), event->0@),
            },
            self.mode() matches Mode::Historical(before, after) ==> (r matches Ok(
                Run::Historical(o),
            ) && o.wf() && o.phase() == Phase::Idle && o.workers() == LOADER_WORKERS
                && o.window() == (after, before) && o.keys().len() == 0 && o.started() == 0
                && o.outcomes().len() == 0),
    {
        match self.mode {
            Mode::Current(_) => match event {
                Some(records) => match handle_event(records) {
                    Ok(plan) => Ok(Run::Current(plan)),
                    Err(e) => Err(e),
                },
                None => Err(ErrorKind::EventNotProvided),
            },
            Mode::Historical(before, after) => {
                match Orchestrator::new(LOADER_WORKERS, after, before) {
                    Some(run) => Ok(Run::Historical(run)),
                    None => Err(ErrorKind::Store),
                }
            },
        }
    }
}

/// The arguments of a run in current mode.
#[derive(Clone, Copy, Debug, PartialEq, Eq, Structural)]
pub struct Cmd {
    /// The time from which the run counts, in milliseconds since the
    /// epoch.
    pub from_ts: i64,
}

impl Cmd {
    /// Makes the handler of the run: one in current mode, from the time
    /// given.
    pub fn run(&self, settings: Settings) -> (r: Result<Handler, DecodeError>)
        ensures
            r is Ok == match settings.output_endpoint {
                Some(text) => uri_accepts(text@),
                None => true,
            },
            r matches Ok(h) ==> h.mode() == Mode::Current(self.from_ts) && h.settings()
                == settings && h.has_endpoint() == settings.output_endpoint is Some,
    {
        Handler::new(settings, Mode::Current(self.from_ts))
    }
}

} // verus!
