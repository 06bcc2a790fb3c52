//! The steps that take one converted source file to the destination store
//! and clear its local files away.

use crate::error::ErrorKind;
use crate::naming::destination_key;
use crate::naming::destination_key_text;
use crate::naming::local_path;
use crate::naming::local_path_text;
use crate::schema::Output;
use vstd::prelude::*;

verus! {

/// One step on a local output file, for the caller to perform.
#[derive(Debug, PartialEq, Eq)]
pub enum Action {
    /// Write the serialized batch of `output` to the local file `path`.
    Write { output: Output, path: String },
    /// Upload the local file `path` to the destination store under `key`.
    Upload { output: Output, path: String, key: String },
    /// Delete the local file `path`.
    Remove { output: Output, path: String },
}

/// The kind of a step.
#[derive(Clone, Copy, Debug, PartialEq, Eq, Structural)]
pub enum Stage {
    Write,
    Upload,
    Remove,
}

/// The number of steps of one file: each of the two outputs is written,
/// uploaded and removed.
pub const STEPS: usize = 6;

/// The stage of step `step`: both writes come first, then both uploads,
/// then both removals.
pub open spec fn stage_at(step: int) -> Stage {
    if step < 2 {
        Stage::Write
    } else if step < 4 {
        Stage::Upload
    } else {
        Stage::Remove
    }
}

/// The output that step `step` works on: within each stage the beacon
/// output comes before the witness output.
pub open spec fn output_at(step: int) -> Output {
    if step % 2 == 0 {
        Output::Beacon
    } else {
        Output::Witness
    }
}

/// The error that a failure of step `step` stands for.
pub open spec fn failure_at(step: int) -> ErrorKind {
    match stage_at(step) {
        Stage::Write => ErrorKind::SchemaWrite,
        Stage::Upload => ErrorKind::Store,
        Stage::Remove => ErrorKind::Store,
    }
}

/// How far one file has come on its way to the destination store.
///
/// The steps are taken one after the other. The first step to fail ends
/// the task: no later step is taken, so a file whose upload failed is
/// never removed.
#[derive(Debug, PartialEq, Eq)]
pub struct FileTask {
    cache: String,
    stamp: String,
    done: usize,
    failed: bool,
}

impl FileTask {
    /// The cache directory that holds the local files.
    pub closed spec fn cache(&self) -> Seq<char> {
        self.cache@
    }

    /// The stamp of the source file.
    pub closed spec fn stamp(&self) -> Seq<char> {
        self.stamp@
    }

    /// The number of steps that have succeeded.
    pub closed spec fn done(&self) -> int {
        self.done as int
    }

    /// Whether a step has failed.
    pub closed spec fn failed(&self) -> bool {
        self.failed
    }

    /// No more steps have succeeded than there are.
    pub open spec fn wf(&self) -> bool {
        0 <= self.done() <= STEPS
    }

    /// A task of which no step has been taken.
    pub fn new(cache: &str, stamp: &str) -> (task: FileTask)
        ensures
            task.wf(),
            task.cache() == cache@,
            task.stamp() == stamp@,
            task.done() == 0,
            !task.failed(),
    {
        FileTask {
            cache: String::from_str(cache),
            stamp: String::from_str(stamp),
            done: 0,
            failed: false,
        }
    }

    /// The step to take next, or `None` once the task has ended.
    pub fn next(&self) -> (action: Option<Action>)
        requires
            self.wf(),
        ensures
            action is Some == (!self.failed() && self.done() < STEPS),
            action matches Some(a) ==> action_is(
                a,
                stage_at(self.done()),
                output_at(self.done()),
                self.cache(),
                self.stamp(),
            ),
    {
        if self.failed || self.done >= STEPS {
            return None;
        }
        let output = if self.done % 2 == 0 {
            Output::Beacon
        } else {
            Output::Witness
        };
        let path = local_path(self.cache.as_str(), output, self.stamp.as_str());
        if self.done < 2 {
            Some(Action::Write { output, path })
        } else if self.done < 4 {
            let key = destination_key(output, self.stamp.as_str());
            Some(Action::Upload { output, path, key })
        } else {
            Some(Action::Remove { output, path })
        }
    }

    /// Records how the step handed out last went. After the task has
    /// ended nothing changes.
    pub fn record(&mut self, succeeded: bool)
        requires
            old(self).wf(),
        ensures
            final(self).wf(),
            final(self).cache() == old(self).cache(),
            final(self).stamp() == old(self).stamp(),
            old(self).failed() || old(self).done() == STEPS ==> final(self).done() == old(self).done() && final(self).failed() == old(self).failed(),
            !old(self).failed() && old(self).done() < STEPS && succeeded ==> final(self).done()
                == old(self).done() + 1 && !final(self).failed(),
            !old(self).failed() && old(self).done() < STEPS && !succeeded ==> final(self).done()
                == old(self).done() && final(self).failed(),
    {
        if self.failed || self.done >= STEPS {
            return ;
        }
        if succeeded {
            self.done = self.done + 1;
        } else {
            self.failed = true;
        }
    }

    /// How the task ended, or `None` while steps remain: `Ok` once every
    /// step has succeeded, else the error of the step that failed.
    pub fn outcome(&self) -> (r: Option<Result<(), ErrorKind>>)
        requires
            self.wf(),
        ensures
            r == if self.failed() {
                Some(Err::<(), ErrorKind>(failure_at(self.done())))
            } else if self.done() == STEPS {
                Some(Ok::<(), ErrorKind>(()))
            } else {
                None
            },
    {
        if self.failed {
            if self.done < 2 {
                Some(Err(ErrorKind::SchemaWrite))
            } else {
                Some(Err(ErrorKind::Store))
            }
        } else if self.done == STEPS {
            Some(Ok(()))
        } else {
            None
        }
    }
}

/// Whether `action` is the step of the given stage on the given output of
/// the file with this stamp.
pub open spec fn action_is(
    action: Action,
    stage: Stage,
    output: Output,
    cache: Seq<char>,
    stamp: Seq<char>,
) -> bool {
    match action {
        Action::Write { output: o, path } => stage == Stage::Write && o == output && path@
            == local_path_text(cache, output, stamp),
        Action::Upload { output: o, path, key } => stage == Stage::Upload && o == output && path@
            == local_path_text(cache, output, stamp) && key@ == destination_key_text(
            output,
            stamp,
        ),
        Action::Remove { output: o, path } => stage == Stage::Remove && o == output && path@
            == local_path_text(cache, output, stamp),
    }
}

/// A local file is removed only after its own upload has succeeded: the
/// removal of an output is a later step than its upload, and steps are
/// taken only while none has failed.
pub proof fn lemma_removal_follows_upload(step: int)
    requires
        0 <= step < STEPS,
        stage_at(step) == Stage::Remove,
    ensures
        stage_at(step - 2) == Stage::Upload,
        output_at(step - 2) == output_at(step),
{
}

/// Each output is written once, uploaded once and removed once: no two
/// steps are of the same stage on the same output.
pub proof fn lemma_each_step_once(first: int, second: int)
    requires
        0 <= first < STEPS,
        0 <= second < STEPS,
        first != second,
    ensures
        stage_at(first) != stage_at(second) || output_at(first) != output_at(second),
{
}

} // verus!
