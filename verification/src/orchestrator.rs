//! The historical run: every source file of a time window, converted under
//! a bound on how many are in work at once.

use crate::error::ErrorKind;
use crate::naming::stamp_token;
use crate::naming::type_token;
use crate::naming::FileType;
use crate::naming::SourceFile;
use crate::numeric::decimal_i64;
use crate::numeric::parse_i64;
use vstd::prelude::*;

verus! {

/// Whether a key names a proof-of-coverage file whose stamp, read as a
/// decimal number, falls in the half-open window from `after` up to but
/// not including `before`.
pub open spec fn in_window(key: Seq<char>, after: i64, before: i64) -> bool {
    &&& FileType::of_token(type_token(key)) == Some(FileType::IotPoc)
    &&& stamp_token(key) is Some
    &&& decimal_i64(stamp_token(key)->0) is Some
    &&& after <= decimal_i64(stamp_token(key)->0)->0 < before
}

/// The keys of a listing that fall in the window, in listing order.
pub open spec fn selected_keys(keys: Seq<String>, after: i64, before: i64) -> Seq<Seq<char>>
    decreases keys.len(),
{
    if keys.len() == 0 {
        Seq::empty()
    } else if in_window(keys.last()@, after, before) {
        selected_keys(keys.drop_last(), after, before).push(keys.last()@)
    } else {
        selected_keys(keys.drop_last(), after, before)
    }
}

/// The keys of a sequence of source files.
pub open spec fn file_keys(files: Seq<SourceFile>) -> Seq<Seq<char>> {
    Seq::new(files.len(), |i: int| files[i].key@)
}

/// Where a historical run stands.
#[derive(Clone, Copy, Debug, PartialEq, Eq, Structural)]
pub enum Phase {
    /// Nothing has been asked for yet.
    Idle,
    /// The listing of the window has been asked for.
    Listing,
    /// Files are being converted.
    Converting,
    /// Every file has finished, one way or the other.
    Done,
}

/// What the caller is to ask the source store for.
#[derive(Clone, Copy, Debug, PartialEq, Eq, Structural)]
pub struct ListRequest {
    /// The type of the files to list.
    pub file_type: FileType,
    /// The start of the window, which belongs to it.
    pub after: i64,
    /// The end of the window, which does not.
    pub before: i64,
}

/// How one file of the run ended.
#[derive(Debug, PartialEq, Eq)]
pub struct Outcome {
    /// The key of the file.
    pub key: String,
    /// `Ok` where the file was converted, uploaded and cleaned up.
    pub result: Result<(), ErrorKind>,
}

/// The count of a finished run.
#[derive(Clone, Copy, Debug, PartialEq, Eq, Structural)]
pub struct Summary {
    /// The files that finished.
    pub files: usize,
    /// Those that succeeded.
    pub succeeded: usize,
    /// Those that failed.
    pub failed: usize,
    /// The output files that reached the destination: two per success.
    pub artifacts: u128,
}

/// The number of successes among outcomes.
pub open spec fn successes(outcomes: Seq<Outcome>) -> nat
    decreases outcomes.len(),
{
    if outcomes.len() == 0 {
        0
    } else if outcomes.last().result is Ok {
        successes(outcomes.drop_last()) + 1
    } else {
        successes(outcomes.drop_last())
    }
}

/// A file of a run that failed, with the kind of its failure.
#[derive(Debug, PartialEq, Eq)]
pub struct Failure {
    /// The key of the file.
    pub key: String,
    /// Why it failed.
    pub kind: ErrorKind,
}

/// The failures among outcomes, in the order they came in: each failed
/// file's key with the kind of its failure.
pub open spec fn failures_of(outcomes: Seq<Outcome>) -> Seq<(Seq<char>, ErrorKind)>
    decreases outcomes.len(),
{
    if outcomes.len() == 0 {
        Seq::empty()
    } else if outcomes.last().result is Err {
        failures_of(outcomes.drop_last()).push(
            (outcomes.last().key@, outcomes.last().result->Err_0),
        )
    } else {
        failures_of(outcomes.drop_last())
    }
}

/// The keys and kinds of a sequence of failures.
pub open spec fn failure_views(failures: Seq<Failure>) -> Seq<(Seq<char>, ErrorKind)> {
    Seq::new(failures.len(), |i: int| (failures[i].key@, failures[i].kind))
}

/// Every outcome is either a success or a failure.
pub proof fn lemma_failures_counted(outcomes: Seq<Outcome>)
    ensures
        failures_of(outcomes).len() + successes(outcomes) == outcomes.len(),
    decreases outcomes.len(),
{
    if outcomes.len() > 0 {
        lemma_failures_counted(outcomes.drop_last());
    }
}

/// The state of a historical run. The caller does the work: it lists the
/// store, starts a conversion for each file that [`Self::dispatch`] hands
/// out, and reports each one back through [`Self::finish`].
#[derive(Debug, PartialEq, Eq)]
pub struct Orchestrator {
    workers: usize,
    after: i64,
    before: i64,
    phase: Phase,
    files: Vec<SourceFile>,
    started: usize,
    outcomes: Vec<Outcome>,
}

impl Orchestrator {
    /// The bound on the files in work at once.
    pub closed spec fn workers(&self) -> nat {
        self.workers as nat
    }

    /// The window of the run.
    pub closed spec fn window(&self) -> (i64, i64) {
        (self.after, self.before)
    }

    /// Where the run stands.
    pub closed spec fn phase(&self) -> Phase {
        self.phase
    }

    /// The keys of the files of the run, in listing order.
    pub closed spec fn keys(&self) -> Seq<Seq<char>> {
        file_keys(self.files@)
    }

    /// The number of files handed out so far.
    pub closed spec fn started(&self) -> nat {
        self.started as nat
    }

    /// The outcomes reported so far, in the order they came in.
    pub closed spec fn outcomes(&self) -> Seq<Outcome> {
        self.outcomes@
    }

    /// The number of files in work.
    pub open spec fn in_flight(&self) -> int {
        self.started() - self.outcomes().len()
    }

    /// The invariant of a run: never more files in work than the bound
    /// allows, and a phase that fits the counts.
    pub closed spec fn wf(&self) -> bool {
        &&& self.workers >= 1
        &&& self.outcomes@.len() <= self.started <= self.files@.len()
        &&& self.started - self.outcomes@.len() <= self.workers
        &&& forall|i: int|
            0 <= i < self.files@.len() ==> (#[trigger] self.files@[i]).file_type
                == FileType::IotPoc && Some(self.files@[i].stamp@) == stamp_token(
                self.files@[i].key@,
            )
        &&& match self.phase {
            Phase::Idle | Phase::Listing => self.files@.len() == 0,
            Phase::Converting => self.outcomes@.len() < self.files@.len(),
            Phase::Done => self.outcomes@.len() == self.files@.len(),
        }
    }

    /// A well-formed run keeps within its bound.
    pub proof fn lemma_bounded(&self)
        requires
            self.wf(),
        ensures
            0 <= self.in_flight() <= self.workers(),
            self.started() <= self.keys().len(),
            self.phase() == Phase::Done ==> self.in_flight() == 0 && self.outcomes().len()
                == self.keys().len(),
    {
    }

    /// A run over the window from `after` up to but not including
    /// `before`, with at most `workers` files in work at once. A bound of
    /// zero allows no work and makes no run.
    pub fn new(workers: usize, after: i64, before: i64) -> (run: Option<Orchestrator>)
        ensures
            run is Some == (workers > 0),
            run matches Some(o) ==> o.wf() && o.workers() == workers && o.window() == (
                after,
                before,
            ) && o.phase() == Phase::Idle && o.keys().len() == 0 && o.started() == 0
                && o.outcomes().len() == 0,
    {
        if workers == 0 {
            return None;
        }
        Some(
            Orchestrator {
                workers,
                after,
                before,
                phase: Phase::Idle,
                files: Vec::new(),
                started: 0,
                outcomes: Vec::new(),
            },
        )
    }

    /// Where the run stands.
    pub fn current_phase(&self) -> (phase: Phase)
        ensures
            phase == self.phase(),
    {
        self.phase
    }

    /// The number of files in work.
    pub fn working(&self) -> (n: usize)
        requires
            self.wf(),
        ensures
            n == self.in_flight(),
    {
        self.started - self.outcomes.len()
    }

    /// Starts the run: an idle run moves on to listing and says what to
    /// list. Any other run stays as it is.
    pub fn start(&mut self) -> (request: Option<ListRequest>)
        requires
            old(self).wf(),
        ensures
            final(self).wf(),
            final(self).workers() == old(self).workers(),
            final(self).window() == old(self).window(),
            final(self).keys() == old(self).keys(),
            final(self).started() == old(self).started(),
            final(self).outcomes() == old(self).outcomes(),
            request is Some == (old(self).phase() == Phase::Idle),
            request matches Some(r) ==> r.file_type == FileType::IotPoc && (r.after, r.before)
                == old(self).window() && final(self).phase() == Phase::Listing,
            request is None ==> final(self).phase() == old(self).phase(),
    {
        match self.phase {
            Phase::Idle => {
                self.phase = Phase::Listing;
                Some(
                    ListRequest {
                        file_type: FileType::IotPoc,
                        after: self.after,
                        before: self.before,
                    },
                )
            },
            _ => None,
        }
    }

    /// Takes the listing in. Of the keys listed, those in the window become
    /// the files of the run, in listing order; with none of them the run
    /// is done at once. Only a run that is listing takes a listing: any
    /// other refuses it and stays as it is.
    pub fn listed(&mut self, keys: &Vec<String>) -> (taken: bool)
        requires
            old(self).wf(),
        ensures
            final(self).wf(),
            final(self).workers() == old(self).workers(),
            final(self).window() == old(self).window(),
            final(self).started() == old(self).started(),
            final(self).outcomes() == old(self).outcomes(),
            taken == (old(self).phase() == Phase::Listing),
            taken ==> final(self).keys() == selected_keys(
                keys@,
                old(self).window().0,
                old(self).window().1,
            ),
            taken ==> final(self).phase() == if final(self).keys().len() == 0 {
                Phase::Done
            } else {
                Phase::Converting
            },
            !taken ==> final(self).phase() == old(self).phase() && final(self).keys() == old(self).keys(),
    {
        match self.phase {
            Phase::Listing => {},
            _ => {
                return false;
            },
        }
        let mut files: Vec<SourceFile> = Vec::new();
        let mut i: usize = 0;
        assert(file_keys(files@) =~= Seq::<Seq<char>>::empty());
        while i < keys.len()
            invariant
                i <= keys.len(),
                file_keys(files@) == selected_keys(
                    keys@.subrange(0, i as int),
                    self.after,
                    self.before,
                ),
                forall|k: int|
                    0 <= k < files@.len() ==> (#[trigger] files@[k]).file_type == FileType::IotPoc
                        && Some(files@[k].stamp@) == stamp_token(files@[k].key@),
            decreases keys.len() - i,
        {
            let ghost taken_keys = keys@.subrange(0, i as int);
            let ghost next_keys = keys@.subrange(0, i + 1);
            assert(next_keys.drop_last() =~= taken_keys);
            assert(next_keys.last() == keys[i as int]);
            let ghost earlier = files@;
            match SourceFile::parse(keys[i].as_str()) {
                Some(file) => {
                    let inside = match file.file_type {
                        FileType::IotPoc => match parse_i64(file.stamp.as_str()) {
                            Some(t) => self.after <= t && t < self.before,
                            None => false,
                        },
                        _ => false,
                    };
                    assert(inside == in_window(keys[i as int]@, self.after, self.before));
                    if inside {
                        files.push(file);
                        assert(file_keys(files@) =~= file_keys(earlier).push(keys[i as int]@));
                    }
                },
                None => {
                    assert(!in_window(keys[i as int]@, self.after, self.before));
                },
            }
            i = i + 1;
        }
        assert(keys@.subrange(0, i as int) =~= keys@);
        self.phase = if files.len() == 0 {
            Phase::Done
        } else {
            Phase::Converting
        };
        self.files = files;
        true
    }

    /// Hands out the next file to convert, if the bound leaves room for
    /// one and a file is left: the files go out in listing order, each
    /// once.
    pub fn dispatch(&mut self) -> (file: Option<SourceFile>)
        requires
            old(self).wf(),
        ensures
            final(self).wf(),
            final(self).workers() == old(self).workers(),
            final(self).window() == old(self).window(),
            final(self).phase() == old(self).phase(),
            final(self).keys() == old(self).keys(),
            final(self).outcomes() == old(self).outcomes(),
            file is Some == (old(self).phase() == Phase::Converting && old(self).in_flight() < old(self).workers() && old(self).started() < old(self).keys().len()),
            file matches Some(f) ==> final(self).started() == old(self).started() + 1 && f.key@
                == old(self).keys()[old(self).started() as int] && f.file_type
                == FileType::IotPoc && Some(f.stamp@) == stamp_token(f.key@),
            file is None ==> final(self).started() == old(self).started(),
    {
        match self.phase {
            Phase::Converting => {},
            _ => {
                return None;
            },
        }
        if self.started - self.outcomes.len() >= self.workers || self.started >= self.files.len() {
            return None;
        }
        let source = &self.files[self.started];
        assert(file_keys(self.files@)[self.started as int] == source.key@);
        let file = SourceFile {
            key: source.key.clone(),
            file_type: FileType::IotPoc,
            stamp: source.stamp.clone(),
        };
        self.started = self.started + 1;
        Some(file)
    }

    /// Takes in how a file in work ended. With it the file is no longer in
    /// work, and once no file is in work or left to hand out the run is
    /// done. A run with no file in work refuses the report and stays as
    /// it is.
    pub fn finish(&mut self, key: String, result: Result<(), ErrorKind>) -> (taken: bool)
        requires
            old(self).wf(),
        ensures
            final(self).wf(),
            final(self).workers() == old(self).workers(),
            final(self).window() == old(self).window(),
            final(self).keys() == old(self).keys(),
            final(self).started() == old(self).started(),
            taken == (old(self).phase() == Phase::Converting && old(self).in_flight() > 0),
            taken ==> final(self).outcomes() == old(self).outcomes().push(
                Outcome { key: key, result: result },
            ),
            taken ==> final(self).phase() == if final(self).outcomes().len() == final(self).keys().len() {
                Phase::Done
            } else {
                Phase::Converting
            },
            !taken ==> final(self).outcomes() == old(self).outcomes() && final(self).phase()
                == old(self).phase(),
    {
        match self.phase {
            Phase::Converting => {},
            _ => {
                return false;
            },
        }
        if self.started == self.outcomes.len() {
            return false;
        }
        self.outcomes.push(Outcome { key, result });
        if self.outcomes.len() == self.files.len() {
            self.phase = Phase::Done;
        }
        true
    }

    /// The files that have failed so far, each with the kind of its
    /// failure, in the order their outcomes came in.
    pub fn failures(&self) -> (failed: Vec<Failure>)
        ensures
            failure_views(failed@) == failures_of(self.outcomes()),
    {
        let mut failed: Vec<Failure> = Vec::new();
        let mut i: usize = 0;
        assert(failure_views(failed@) =~= Seq::<(Seq<char>, ErrorKind)>::empty());
        while i < self.outcomes.len()
            invariant
                i <= self.outcomes.len(),
                failure_views(failed@) == failures_of(self.outcomes@.subrange(0, i as int)),
            decreases self.outcomes.len() - i,
        {
            let ghost next = self.outcomes@.subrange(0, i + 1);
            assert(next.drop_last() =~= self.outcomes@.subrange(0, i as int));
            assert(next.last() == self.outcomes@[i as int]);
            let ghost earlier = failed@;
            match self.outcomes[i].result {
                Err(kind) => {
                    failed.push(Failure { key: self.outcomes[i].key.clone(), kind });
                    assert(failure_views(failed@) =~= failure_views(earlier).push(
                        (self.outcomes@[i as int].key@, kind),
                    ));
                },
                Ok(()) => {},
            }
            i = i + 1;
        }
        assert(self.outcomes@.subrange(0, i as int) =~= self.outcomes@);
        failed
    }

    /// The count of a run that is done; `None` while it is not.
    pub fn summary(&self) -> (summary: Option<Summary>)
        requires
            self.wf(),
        ensures
            summary is Some == (self.phase() == Phase::Done),
            summary matches Some(s) ==> s.files == self.outcomes().len() && s.succeeded
                == successes(self.outcomes()) && s.failed == failures_of(self.outcomes()).len()
                && s.failed == s.files - s.succeeded && s.artifacts == 2 * s.succeeded,
    {
        proof {
            lemma_failures_counted(self.outcomes@);
        }
        match self.phase {
            Phase::Done => {},
            _ => {
                return None;
            },
        }
        let mut succeeded: usize = 0;
        let mut i: usize = 0;
        while i < self.outcomes.len()
            invariant
                i <= self.outcomes.len(),
                succeeded <= i,
                succeeded == successes(self.outcomes@.subrange(0, i as int)),
            decreases self.outcomes.len() - i,
        {
            assert(self.outcomes@.subrange(0, i + 1).drop_last() =~= self.outcomes@.subrange(
                0,
                i as int,
            ));
            if self.outcomes[i].result.is_ok() {
                succeeded = succeeded + 1;
            }
            i = i + 1;
        }
        assert(self.outcomes@.subrange(0, i as int) =~= self.outcomes@);
        Some(
            Summary {
                files: self.outcomes.len(),
                succeeded,
                failed: self.outcomes.len() - succeeded,
                artifacts: 2 * (succeeded as u128),
            },
        )
    }
}

} // verus!
