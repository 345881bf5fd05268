//! Upload mode, as a state machine.
//!
//! The caller walks the matches of the file pattern and sends the files; it
//! tells the machine what happened, one event at a time, and reads from the
//! state what to do next:
//!
//! - `Scanning`: fetch the next match and report it.
//! - `Uploading`: store the file of the task under its key and report how
//!   that went.
//! - `Finished`, `Failed`: stop.
//!
//! Files are sent one after the other. The first failure ends the run; only
//! a candidate that could not be read is passed over.

use crate::error::{
    Failure,
    FailureView,
    InvalidPath,
    StorageError,
    StorageErrorView,
    UsageError,
    UsageErrorView,
};
use crate::key::{file_name, file_name_of};
use crate::report::{
    skipped_entry_line,
    skipped_entry_text,
    upload_confirmation,
    upload_confirmation_text,
};
use vstd::prelude::*;

verus! {

/// One file to send: where it lies and the key it is stored under.
#[derive(Debug, Clone, PartialEq, Eq)]
pub struct UploadTask {
    pub local_path: String,
    /// The file name of `local_path`.
    pub key: String,
}

/// Mathematical value of an [`UploadTask`].
pub struct UploadTaskView {
    pub local_path: Seq<char>,
    pub key: Seq<char>,
}

impl View for UploadTask {
    type V = UploadTaskView;

    open spec fn view(&self) -> UploadTaskView {
        UploadTaskView { local_path: self.local_path@, key: self.key@ }
    }
}

impl UploadTaskView {
    /// A task is well formed when its key is the file name of its path.
    pub open spec fn well_formed(self) -> bool {
        file_name_of(self.local_path) == Some(self.key)
    }
}

/// What the caller reports to the machine.
#[derive(Debug, Clone, PartialEq, Eq)]
pub enum UploadEvent {
    /// The file pattern does not compile; carries the reason.
    PatternRejected(String),
    /// The pattern matched this path.
    Matched(String),
    /// The pattern matched a path that is not valid text.
    MatchedNonText,
    /// A candidate could not be read; carries the cause.
    Unreadable(String),
    /// There are no more matches.
    Exhausted,
    /// The file of the current task was stored.
    PutSucceeded,
    /// The file of the current task could not be read or stored.
    PutFailed(StorageError),
}

/// Mathematical value of an [`UploadEvent`].
pub enum UploadEventView {
    PatternRejected(Seq<char>),
    Matched(Seq<char>),
    MatchedNonText,
    Unreadable(Seq<char>),
    Exhausted,
    PutSucceeded,
    PutFailed(StorageErrorView),
}

impl View for UploadEvent {
    type V = UploadEventView;

    open spec fn view(&self) -> UploadEventView {
        match self {
            UploadEvent::PatternRejected(reason) => UploadEventView::PatternRejected(reason@),
            UploadEvent::Matched(path) => UploadEventView::Matched(path@),
            UploadEvent::MatchedNonText => UploadEventView::MatchedNonText,
            UploadEvent::Unreadable(cause) => UploadEventView::Unreadable(cause@),
            UploadEvent::Exhausted => UploadEventView::Exhausted,
            UploadEvent::PutSucceeded => UploadEventView::PutSucceeded,
            UploadEvent::PutFailed(e) => UploadEventView::PutFailed(e@),
        }
    }
}

/// Where a run of upload mode stands.
#[derive(Debug, Clone, PartialEq, Eq)]
pub enum UploadState {
    /// Waiting for the next match of the pattern.
    Scanning,
    /// Waiting for the outcome of sending this file.
    Uploading(UploadTask),
    /// Every match was sent.
    Finished,
    /// The run was given up.
    Failed(Failure),
}

/// Mathematical value of an [`UploadState`].
pub enum UploadStateView {
    Scanning,
    Uploading(UploadTaskView),
    Finished,
    Failed(FailureView),
}

impl View for UploadState {
    type V = UploadStateView;

    open spec fn view(&self) -> UploadStateView {
        match self {
            UploadState::Scanning => UploadStateView::Scanning,
            UploadState::Uploading(task) => UploadStateView::Uploading(task@),
            UploadState::Finished => UploadStateView::Finished,
            UploadState::Failed(failure) => UploadStateView::Failed(failure@),
        }
    }
}

impl UploadStateView {
    /// A state is well formed when the task it waits for, if any, is.
    pub open spec fn well_formed(self) -> bool {
        self matches UploadStateView::Uploading(task) ==> task.well_formed()
    }
}

/// The task for a matched path: the file is stored under its file name. A
/// path without file name gives no task.
pub open spec fn task_for(path: Seq<char>) -> Result<UploadTaskView, InvalidPath> {
    match file_name_of(path) {
        Some(key) => Ok(UploadTaskView { local_path: path, key }),
        None => Err(InvalidPath::NoFileName),
    }
}

/// One move of the machine: the state that follows `state` on `event`, and
/// the line to print, if any. `bucket` is where the files go.
///
/// An event that the state does not wait for changes nothing.
pub open spec fn upload_transition(
    bucket: Seq<char>,
    state: UploadStateView,
    event: UploadEventView,
) -> (UploadStateView, Option<Seq<char>>) {
    match state {
        UploadStateView::Scanning => match event {
            UploadEventView::PatternRejected(reason) => (
                UploadStateView::Failed(
                    FailureView::Usage(UsageErrorView::MalformedPattern(reason)),
                ),
                None,
            ),
            UploadEventView::Matched(path) => match task_for(path) {
                Ok(task) => (UploadStateView::Uploading(task), None),
                Err(e) => (UploadStateView::Failed(FailureView::InvalidPath(e)), None),
            },
            UploadEventView::MatchedNonText => (
                UploadStateView::Failed(FailureView::InvalidPath(InvalidPath::NotText)),
                None,
            ),
            UploadEventView::Unreadable(cause) => (
                UploadStateView::Scanning,
                Some(skipped_entry_text(cause)),
            ),
            UploadEventView::Exhausted => (UploadStateView::Finished, None),
            _ => (state, None),
        },
        UploadStateView::Uploading(task) => match event {
            UploadEventView::PutSucceeded => (
                UploadStateView::Scanning,
                Some(upload_confirmation_text(bucket, task.key)),
            ),
            UploadEventView::PutFailed(e) => (
                UploadStateView::Failed(FailureView::Storage(e)),
                None,
            ),
            _ => (state, None),
        },
        _ => (state, None),
    }
}

/// The state reached from `Scanning` after `events`, in their order.
pub open spec fn state_after(bucket: Seq<char>, events: Seq<UploadEventView>) -> UploadStateView
    decreases events.len(),
{
    if events.len() == 0 {
        UploadStateView::Scanning
    } else {
        upload_transition(bucket, state_after(bucket, events.drop_last()), events.last()).0
    }
}

/// The uploads begun from `Scanning` in the course of `events`, in their order.
pub open spec fn uploads_begun(bucket: Seq<char>, events: Seq<UploadEventView>) -> Seq<
    UploadTaskView,
>
    decreases events.len(),
{
    if events.len() == 0 {
        Seq::empty()
    } else {
        let earlier = uploads_begun(bucket, events.drop_last());
        let before = state_after(bucket, events.drop_last());
        match state_after(bucket, events) {
            UploadStateView::Uploading(task) => if before is Scanning {
                earlier.push(task)
            } else {
                earlier
            },
            _ => earlier,
        }
    }
}

/// A run starts by scanning.
pub fn upload_start() -> (state: UploadState)
    ensures
        state@ == UploadStateView::Scanning,
{
    UploadState::Scanning
}

/// Makes the task for a matched path, or tells why there is none.
pub fn upload_task(path: String) -> (r: Result<UploadTask, InvalidPath>)
    ensures
        match r {
            Ok(task) => task_for(path@) == Ok::<UploadTaskView, InvalidPath>(task@)
                && task@.well_formed(),
            Err(e) => task_for(path@) == Err::<UploadTaskView, InvalidPath>(e),
        },
{
    match file_name(path.as_str()) {
        Some(key) => Ok(UploadTask { local_path: path, key }),
        None => Err(InvalidPath::NoFileName),
    }
}

/// Moves the machine by one event. Returns the next state and the line to
/// print, if the event calls for one.
pub fn upload_step(bucket: &str, state: UploadState, event: UploadEvent) -> (r: (
    UploadState,
    Option<String>,
))
    ensures
        (r.0@, r.1.deep_view()) == upload_transition(bucket@, state@, event@),
        state@.well_formed() ==> r.0@.well_formed(),
{
    match state {
        UploadState::Scanning => match event {
            UploadEvent::PatternRejected(reason) => (
                UploadState::Failed(Failure::Usage(UsageError::MalformedPattern(reason))),
                None,
            ),
            UploadEvent::Matched(path) => match upload_task(path) {
                Ok(task) => (UploadState::Uploading(task), None),
                Err(e) => (UploadState::Failed(Failure::InvalidPath(e)), None),
            },
            UploadEvent::MatchedNonText => (
                UploadState::Failed(Failure::InvalidPath(InvalidPath::NotText)),
                None,
            ),
            UploadEvent::Unreadable(cause) => (
                UploadState::Scanning,
                Some(skipped_entry_line(cause.as_str())),
            ),
            UploadEvent::Exhausted => (UploadState::Finished, None),
            UploadEvent::PutSucceeded => (UploadState::Scanning, None),
            UploadEvent::PutFailed(_) => (UploadState::Scanning, None),
        },
        UploadState::Uploading(task) => match event {
            UploadEvent::PutSucceeded => {
                let line = upload_confirmation(bucket, task.key.as_str());
                (UploadState::Scanning, Some(line))
            },
            UploadEvent::PutFailed(e) => (UploadState::Failed(Failure::Storage(e)), None),
            _ => (UploadState::Uploading(task), None),
        },
        UploadState::Finished => (UploadState::Finished, None),
        UploadState::Failed(failure) => (UploadState::Failed(failure), None),
    }
}

/// A run that has ended stays as it is, whatever is reported to it.
pub proof fn lemma_ended_run_stays(bucket: Seq<char>, state: UploadStateView, event: UploadEventView)
    requires
        state is Finished || state is Failed,
    ensures
        upload_transition(bucket, state, event) == (state, None::<Seq<char>>),
{
}

/// When the pattern matches nothing, the run finishes at once and no upload
/// is begun.
pub proof fn lemma_no_match_finishes(bucket: Seq<char>)
    ensures
        state_after(bucket, seq![UploadEventView::Exhausted]) == UploadStateView::Finished,
        uploads_begun(bucket, seq![UploadEventView::Exhausted]).len() == 0,
{
    let events = seq![UploadEventView::Exhausted];
    assert(events.drop_last() =~= Seq::<UploadEventView>::empty());
    assert(state_after(bucket, events.drop_last()) == UploadStateView::Scanning);
    assert(events.last() == UploadEventView::Exhausted);
    assert(uploads_begun(bucket, events.drop_last()).len() == 0);
}

/// Without a match there is no upload: however long the run, if no event
/// reports a matched path, no upload is begun.
pub proof fn lemma_uploads_need_matches(bucket: Seq<char>, events: Seq<UploadEventView>)
    requires
        forall|i: int| 0 <= i < events.len() ==> !(#[trigger] events[i] is Matched),
    ensures
        uploads_begun(bucket, events).len() == 0,
        !(state_after(bucket, events) is Uploading),
    decreases events.len(),
{
    if events.len() > 0 {
        lemma_uploads_need_matches(bucket, events.drop_last());
        assert(!(events[events.len() - 1] is Matched));
    }
}

/// Every upload begun stores a file under the file name of its path.
pub proof fn lemma_uploads_use_file_names(bucket: Seq<char>, events: Seq<UploadEventView>)
    ensures
        forall|i: int|
            0 <= i < uploads_begun(bucket, events).len() ==> (#[trigger] uploads_begun(
                bucket,
                events,
            )[i]).well_formed(),
        state_after(bucket, events).well_formed(),
    decreases events.len(),
{
    if events.len() > 0 {
        lemma_uploads_use_file_names(bucket, events.drop_last());
        let begun = uploads_begun(bucket, events);
        let earlier = uploads_begun(bucket, events.drop_last());
        assert forall|i: int| 0 <= i < begun.len() implies (#[trigger] begun[i]).well_formed() by {
            if i < earlier.len() {
                assert(begun[i] == earlier[i]);
            }
        }
    }
}

/// Once a run has ended, further events change neither its state nor the
/// uploads begun.
pub proof fn lemma_nothing_follows_the_end(
    bucket: Seq<char>,
    events: Seq<UploadEventView>,
    later: Seq<UploadEventView>,
)
    requires
        state_after(bucket, events) is Finished || state_after(bucket, events) is Failed,
    ensures
        state_after(bucket, events + later) == state_after(bucket, events),
        uploads_begun(bucket, events + later) == uploads_begun(bucket, events),
    decreases later.len(),
{
    if later.len() == 0 {
        assert(events + later =~= events);
    } else {
        lemma_nothing_follows_the_end(bucket, events, later.drop_last());
        assert((events + later).drop_last() =~= events + later.drop_last());
        assert((events + later).last() == later.last());
    }
}

/// A failed upload ends the run before the next file is tried: when sending
/// a file fails, the run is given up with that failure, and whatever is
/// reported later, no further upload is begun.
pub proof fn lemma_failed_put_ends_the_run(
    bucket: Seq<char>,
    events: Seq<UploadEventView>,
    failure: StorageErrorView,
    later: Seq<UploadEventView>,
)
    requires
        state_after(bucket, events) is Uploading,
    ensures
        state_after(bucket, events.push(UploadEventView::PutFailed(failure)) + later)
            == UploadStateView::Failed(FailureView::Storage(failure)),
        uploads_begun(bucket, events.push(UploadEventView::PutFailed(failure)) + later)
            == uploads_begun(bucket, events),
{
    let failed = events.push(UploadEventView::PutFailed(failure));
    assert(failed.drop_last() =~= events);
    assert(failed.last() == UploadEventView::PutFailed(failure));
    lemma_nothing_follows_the_end(bucket, failed, later);
}

} // verus!
