//! Bringing one remote file in line with the content wanted for it.
//!
//! A [`Reconciler`] never talks to the service itself.  It is started with
//! the wanted content and asks for the file to be read; from then on each
//! [`Event`] handed to [`Reconciler::step`] is answered with the next
//! [`Action`] and, where there is something to report, a diagnostic line.
//! At most one write is ever asked for, and none where the remote file
//! already matches or differs by timestamp churn only.

use vstd::prelude::*;
use vstd::string::StringSliceAdditionalSpecFns;
use vstd::utf8::encode_utf8;
use crate::bytes::{copy_of, same_bytes, strip_line_feeds, trim, trimmed, without_line_feeds};
use crate::codec::{base64_decoding, bytes_view, decode_base64};
use crate::diff::{is_spurious_diff, shows_only_timestamp_churn, unified_diff};
use crate::gateway::{
    Action, ActionView, DirectoryItem, DirectoryItemView, Event, EventView, Failure, ReadFailure,
    ReadFailureView, listing_view,
};
use crate::messages::{
    commit_message_text, create_message, created_line, created_notice, rate_limited_line,
    rate_limited_notice, read_failed_line, read_failed_notice, unchanged_line, unchanged_notice,
    update_message, updated_line, updated_notice,
};
use crate::paths::{parent_directory, parent_of, strip_leading_slash, without_leading_slash};
use crate::search::contains_run;
use crate::text::text_contains;

verus! {

/// Seconds added to the wait a rate limit asks for.
pub const PAUSE_MARGIN_SECS: u64 = 5;

/// What a reconciliation is waiting for.
#[derive(Debug, Clone, PartialEq, Eq)]
pub enum Phase {
    /// The file has been asked for.
    Reading,
    /// A pause has been asked for.
    Pausing,
    /// The listing of the parent directory has been asked for.
    Listing,
    /// The blob with content hash `sha` has been asked for.
    Decoding { sha: String },
    /// An update has been asked for.
    Updating,
    /// A creation has been asked for.
    Creating,
    /// Nothing: the reconciliation has ended.
    Done,
}

pub enum PhaseView {
    Reading,
    Pausing,
    Listing,
    Decoding { sha: Seq<char> },
    Updating,
    Creating,
    Done,
}

impl View for Phase {
    type V = PhaseView;

    open spec fn view(&self) -> PhaseView {
        match *self {
            Phase::Reading => PhaseView::Reading,
            Phase::Pausing => PhaseView::Pausing,
            Phase::Listing => PhaseView::Listing,
            Phase::Decoding { sha } => PhaseView::Decoding { sha: sha@ },
            Phase::Updating => PhaseView::Updating,
            Phase::Creating => PhaseView::Creating,
            Phase::Done => PhaseView::Done,
        }
    }
}

/// The reconciliation of one file: where it is, what it should hold, and
/// what is being waited for.
#[derive(Debug, Clone)]
pub struct Reconciler {
    branch: String,
    path: String,
    target: Vec<u8>,
    phase: Phase,
}

pub struct ReconcilerView {
    pub branch: Seq<char>,
    pub path: Seq<char>,
    /// The wanted content, trimmed.
    pub target: Seq<u8>,
    pub phase: PhaseView,
}

impl View for Reconciler {
    type V = ReconcilerView;

    closed spec fn view(&self) -> ReconcilerView {
        ReconcilerView {
            branch: self.branch@,
            path: self.path@,
            target: self.target@,
            phase: self.phase@,
        }
    }
}

/// What one event leads to.
pub struct Transition {
    pub state: ReconcilerView,
    pub notice: Option<Seq<char>>,
    pub action: ActionView,
}

/// What [`Reconciler::step`] hands back: a diagnostic line to print, if any,
/// and then the action to carry out.
#[derive(Debug, Clone, PartialEq, Eq)]
pub struct Step {
    pub notice: Option<String>,
    pub action: Action,
}

/// The view of an optional line.
pub open spec fn line_view(line: Option<String>) -> Option<Seq<char>> {
    match line {
        Some(text) => Some(text@),
        None => None,
    }
}

/// `after` and `step` are what `transition` prescribes.
pub open spec fn realizes(after: ReconcilerView, step: Step, transition: Transition) -> bool {
    &&& after == transition.state
    &&& line_view(step.notice) == transition.notice
    &&& step.action@ == transition.action
}

/// `state` in another phase.
pub open spec fn in_phase(state: ReconcilerView, phase: PhaseView) -> ReconcilerView {
    ReconcilerView { branch: state.branch, path: state.path, target: state.target, phase }
}

/// A reconciliation that has just asked for its file.
pub open spec fn started(branch: Seq<char>, path: Seq<char>, desired: Seq<u8>) -> ReconcilerView {
    ReconcilerView { branch, path, target: trimmed(desired), phase: PhaseView::Reading }
}

/// The event is not an answer to what was asked: nothing changes.
pub open spec fn ignored(state: ReconcilerView) -> Transition {
    Transition { state, notice: None, action: ActionView::Wait }
}

/// The end, with an optional last line.
pub open spec fn stopped(state: ReconcilerView, notice: Option<Seq<char>>) -> Transition {
    Transition { state: in_phase(state, PhaseView::Done), notice, action: ActionView::Stop }
}

/// The end, because a precondition of going on does not hold.
pub open spec fn failed(
    state: ReconcilerView,
    notice: Option<Seq<char>>,
    failure: Failure,
) -> Transition {
    Transition {
        state: in_phase(state, PhaseView::Done),
        notice,
        action: ActionView::Fail { failure },
    }
}

/// The remote file needs no write.
pub open spec fn unchanged(state: ReconcilerView) -> Transition {
    stopped(state, Some(unchanged_line(state.path)))
}

/// The remote file, whose content hash is `sha`, is to be replaced.
pub open spec fn updating(state: ReconcilerView, sha: Seq<char>) -> Transition {
    Transition {
        state: in_phase(state, PhaseView::Updating),
        notice: None,
        action: ActionView::Update {
            path: state.path,
            content: state.target,
            message: update_message(state.path),
            sha,
            branch: state.branch,
        },
    }
}

/// The file is taken not to exist and is to be created; `detail` says why
/// it could not be read.
pub open spec fn creating(state: ReconcilerView, detail: Seq<char>) -> Transition {
    Transition {
        state: in_phase(state, PhaseView::Creating),
        notice: Some(read_failed_line(state.path, detail)),
        action: ActionView::Create {
            path: state.path,
            content: state.target,
            message: create_message(state.path),
            branch: state.branch,
        },
    }
}

/// The file differs from the wanted content and `rendering` is the unified
/// diff between the two: churn is left alone, anything else is replaced.
pub open spec fn after_diff(state: ReconcilerView, sha: Seq<char>, rendering: Seq<u8>) -> Transition {
    if shows_only_timestamp_churn(rendering) {
        unchanged(state)
    } else {
        updating(state, sha)
    }
}

/// The file was read.
pub open spec fn after_file_read(
    state: ReconcilerView,
    content: Seq<u8>,
    sha: Seq<char>,
) -> Transition {
    let current = trimmed(content);
    if state.target == current {
        unchanged(state)
    } else {
        after_diff(state, sha, unified_diff(current, state.target))
    }
}

/// The rate limit is exhausted: pause for the reset time and a margin, then
/// end without trying again.
pub open spec fn after_rate_limit(
    state: ReconcilerView,
    reset_secs: u64,
    reset_nanos: u32,
) -> Transition {
    let notice = Some(rate_limited_line(reset_secs as nat));
    if reset_secs + PAUSE_MARGIN_SECS > u64::MAX {
        failed(state, notice, Failure::PauseTooLong)
    } else {
        Transition {
            state: in_phase(state, PhaseView::Pausing),
            notice,
            action: ActionView::Pause {
                secs: (reset_secs + PAUSE_MARGIN_SECS) as u64,
                nanos: reset_nanos,
            },
        }
    }
}

/// The refusal that marks a file too large to be read in one piece.
pub open spec fn says_too_large(message: Seq<char>) -> bool {
    contains_run(message, "too_large"@)
}

/// The file could not be read.
pub open spec fn after_read_failure(state: ReconcilerView, failure: ReadFailureView) -> Transition {
    match failure {
        ReadFailureView::RateLimit { reset_secs, reset_nanos } => after_rate_limit(
            state,
            reset_secs,
            reset_nanos,
        ),
        ReadFailureView::Fault { code, message, detail } => if says_too_large(message) {
            Transition {
                state: in_phase(state, PhaseView::Listing),
                notice: None,
                action: ActionView::List {
                    path: parent_directory(state.path),
                    branch: state.branch,
                },
            }
        } else {
            creating(state, detail)
        },
        ReadFailureView::Other { detail } => creating(state, detail),
    }
}

/// Content hash of the first entry of `items` whose path is `name`.
pub open spec fn sha_of_first_named(
    items: Seq<DirectoryItemView>,
    name: Seq<char>,
) -> Option<Seq<char>>
    decreases items.len(),
{
    if items.len() == 0 {
        None
    } else if items.first().path == name {
        Some(items.first().sha)
    } else {
        sha_of_first_named(items.drop_first(), name)
    }
}

/// The parent directory was listed: the file's own entry gives the content
/// hash under which its blob can be fetched.  Without such an entry there
/// is nothing to do.
pub open spec fn after_listing(state: ReconcilerView, items: Seq<DirectoryItemView>) -> Transition {
    match sha_of_first_named(items, without_leading_slash(state.path)) {
        Some(sha) => Transition {
            state: in_phase(state, PhaseView::Decoding { sha }),
            notice: None,
            action: ActionView::ReadBlob { sha },
        },
        None => stopped(state, None),
    }
}

/// How a fetched blob stands to the wanted content.
#[derive(Debug, Clone, Copy, PartialEq, Eq, Structural)]
pub enum Comparison {
    /// The blob holds the wanted content, up to blanks at either end.
    Same,
    /// The blob holds something else.
    Different,
    /// The blob's text is not valid base-64.
    Unreadable,
}

/// How a blob whose text decodes to `decoded` stands to the wanted content
/// `target`, which is trimmed already.
pub open spec fn compared(target: Seq<u8>, decoded: Option<Seq<u8>>) -> Comparison {
    match decoded {
        None => Comparison::Unreadable,
        Some(bytes) => if target == trimmed(bytes) {
            Comparison::Same
        } else {
            Comparison::Different
        },
    }
}

/// The blob was fetched and `decoded` is what its text decodes to.
pub open spec fn after_decoding(
    state: ReconcilerView,
    sha: Seq<char>,
    decoded: Option<Seq<u8>>,
) -> Transition {
    match compared(state.target, decoded) {
        Comparison::Unreadable => failed(state, None, Failure::BlobNotBase64),
        Comparison::Same => unchanged(state),
        Comparison::Different => updating(state, sha),
    }
}

/// The blob was fetched: its text is base-64 once the line feeds are out.
pub open spec fn after_blob_read(
    state: ReconcilerView,
    sha: Seq<char>,
    content: Seq<char>,
) -> Transition {
    after_decoding(state, sha, base64_decoding(without_line_feeds(encode_utf8(content))))
}

/// What `event` leads to in `state`.
pub open spec fn transition(state: ReconcilerView, event: EventView) -> Transition {
    match (state.phase, event) {
        (PhaseView::Reading, EventView::FileRead { content, sha }) => after_file_read(
            state,
            content,
            sha,
        ),
        (PhaseView::Reading, EventView::ReadFailed { failure }) => after_read_failure(
            state,
            failure,
        ),
        (PhaseView::Listing, EventView::Listed { items }) => after_listing(state, items),
        (PhaseView::Decoding { sha }, EventView::BlobRead { text }) => after_blob_read(
            state,
            sha,
            text,
        ),
        (PhaseView::Pausing, EventView::Settled) => stopped(state, None),
        (PhaseView::Updating, EventView::Settled) => stopped(state, Some(updated_line(state.path))),
        (PhaseView::Creating, EventView::Settled) => stopped(state, Some(created_line(state.path))),
        _ => ignored(state),
    }
}

/// Compares a fetched blob, given what its text decodes to, with the wanted
/// content `target`, which is trimmed already.
pub fn compare_blob(target: &[u8], decoded: &Option<Vec<u8>>) -> (comparison: Comparison)
    ensures
        comparison == compared(target@, bytes_view(*decoded)),
{
    match decoded {
        None => Comparison::Unreadable,
        Some(bytes) => {
            let current = trim(bytes.as_slice());
            if same_bytes(target, current.as_slice()) {
                Comparison::Same
            } else {
                Comparison::Different
            }
        },
    }
}

/// Content hash of the first entry of `items` whose path is `name`.
pub fn find_sha(items: &Vec<DirectoryItem>, name: &String) -> (sha: Option<String>)
    ensures
        line_view(sha) == sha_of_first_named(listing_view(items@), name@),
{
    let ghost views = listing_view(items@);
    proof {
        assert(views.skip(0) =~= views);
    }
    let mut i: usize = 0;
    while i < items.len()
        invariant
            i <= items@.len(),
            views == listing_view(items@),
            sha_of_first_named(views, name@) == sha_of_first_named(views.skip(i as int), name@),
        decreases items@.len() - i,
    {
        proof {
            assert(views.skip(i as int).first() == items@[i as int]@);
            assert(views.skip(i as int).drop_first() =~= views.skip(i + 1));
        }
        if items[i].path == *name {
            return Some(items[i].sha.clone());
        }
        i += 1;
    }
    None
}

/// Starts bringing the file at `file_path` on `branch` in line with
/// `new_content`: the first thing asked for is the file as it stands.  The
/// caller carries the action out, reports what came of it to
/// [`Reconciler::step`], and goes on so until told to stop.
pub fn create_or_update_file_in_github_repo(
    branch: &str,
    file_path: &str,
    new_content: Vec<u8>,
) -> (out: (Reconciler, Action))
    ensures
        out.0@ == started(branch@, file_path@, new_content@),
        out.1@ == (ActionView::ReadFile { path: file_path@, branch: branch@ }),
{
    Reconciler::start(branch, file_path, new_content.as_slice())
}

impl Reconciler {
    /// The branch the file is on.
    pub fn branch(&self) -> (branch: &String)
        ensures
            branch@ == self@.branch,
    {
        &self.branch
    }

    /// The path of the file.
    pub fn path(&self) -> (path: &String)
        ensures
            path@ == self@.path,
    {
        &self.path
    }

    /// The wanted content, trimmed.
    pub fn target(&self) -> (target: &Vec<u8>)
        ensures
            target@ == self@.target,
    {
        &self.target
    }

    /// What is being waited for.
    pub fn phase(&self) -> (phase: &Phase)
        ensures
            phase@ == self@.phase,
    {
        &self.phase
    }

    /// Whether the reconciliation has ended.
    pub fn is_done(&self) -> (done: bool)
        ensures
            done == (self@.phase is Done),
    {
        matches!(self.phase, Phase::Done)
    }

    /// Starts the reconciliation of the file at `path` on `branch` with
    /// `desired`, and asks for the file to be read.
    pub fn start(branch: &str, path: &str, desired: &[u8]) -> (out: (Reconciler, Action))
        ensures
            out.0@ == started(branch@, path@, desired@),
            out.1@ == (ActionView::ReadFile { path: path@, branch: branch@ }),
    {
        let reconciler = Reconciler {
            branch: branch.to_owned(),
            path: path.to_owned(),
            target: trim(desired),
            phase: Phase::Reading,
        };
        (reconciler, Action::ReadFile { path: path.to_owned(), branch: branch.to_owned() })
    }

    /// Leaves everything as it is.
    fn ignore(&self) -> (step: Step)
        ensures
            realizes(self@, step, ignored(self@)),
    {
        Step { notice: None, action: Action::Wait }
    }

    /// Ends the reconciliation.
    fn stop(&mut self, notice: Option<String>) -> (step: Step)
        ensures
            realizes(final(self)@, step, stopped(old(self)@, line_view(notice))),
    {
        self.phase = Phase::Done;
        Step { notice, action: Action::Stop }
    }

    /// Gives the reconciliation up.
    fn fail(&mut self, notice: Option<String>, failure: Failure) -> (step: Step)
        ensures
            realizes(final(self)@, step, failed(old(self)@, line_view(notice), failure)),
    {
        self.phase = Phase::Done;
        Step { notice, action: Action::Fail { failure } }
    }

    /// Ends the reconciliation without a write.
    fn leave_unchanged(&mut self) -> (step: Step)
        ensures
            realizes(final(self)@, step, unchanged(old(self)@)),
    {
        let notice = unchanged_notice(self.path.as_str());
        self.stop(Some(notice))
    }

    /// Asks for the file to be replaced.
    fn update(&mut self, sha: String) -> (step: Step)
        ensures
            realizes(final(self)@, step, updating(old(self)@, sha@)),
    {
        self.phase = Phase::Updating;
        Step {
            notice: None,
            action: Action::Update {
                path: self.path.clone(),
                content: copy_of(self.target.as_slice()),
                message: commit_message_text("Updating", self.path.as_str()),
                sha,
                branch: self.branch.clone(),
            },
        }
    }

    /// Asks for the file to be created.
    fn create(&mut self, detail: &str) -> (step: Step)
        ensures
            realizes(final(self)@, step, creating(old(self)@, detail@)),
    {
        self.phase = Phase::Creating;
        Step {
            notice: Some(read_failed_notice(self.path.as_str(), detail)),
            action: Action::Create {
                path: self.path.clone(),
                content: copy_of(self.target.as_slice()),
                message: commit_message_text("Creating", self.path.as_str()),
                branch: self.branch.clone(),
            },
        }
    }

    /// Decides on the file as read.
    fn on_file_read(&mut self, content: &[u8], sha: String) -> (step: Step)
        ensures
            realizes(final(self)@, step, after_file_read(old(self)@, content@, sha@)),
    {
        let current = trim(content);
        if same_bytes(self.target.as_slice(), current.as_slice()) {
            self.leave_unchanged()
        } else if is_spurious_diff(current.as_slice(), self.target.as_slice()) {
            self.leave_unchanged()
        } else {
            self.update(sha)
        }
    }

    /// Decides on an exhausted rate limit.
    fn on_rate_limit(&mut self, reset_secs: u64, reset_nanos: u32) -> (step: Step)
        ensures
            realizes(final(self)@, step, after_rate_limit(old(self)@, reset_secs, reset_nanos)),
    {
        let notice = Some(rate_limited_notice(reset_secs));
        match reset_secs.checked_add(PAUSE_MARGIN_SECS) {
            Some(secs) => {
                self.phase = Phase::Pausing;
                Step { notice, action: Action::Pause { secs, nanos: reset_nanos } }
            },
            None => self.fail(notice, Failure::PauseTooLong),
        }
    }

    /// Decides on a failed read.
    fn on_read_failure(&mut self, failure: &ReadFailure) -> (step: Step)
        ensures
            realizes(final(self)@, step, after_read_failure(old(self)@, failure@)),
    {
        match failure {
            ReadFailure::RateLimit { reset_secs, reset_nanos } => self.on_rate_limit(
                *reset_secs,
                *reset_nanos,
            ),
            ReadFailure::Fault { code, message, detail } => {
                if text_contains(message.as_str(), "too_large") {
                    self.phase = Phase::Listing;
                    Step {
                        notice: None,
                        action: Action::List {
                            path: parent_of(self.path.as_str()),
                            branch: self.branch.clone(),
                        },
                    }
                } else {
                    self.create(detail.as_str())
                }
            },
            ReadFailure::Other { detail } => self.create(detail.as_str()),
        }
    }

    /// Decides on the listing of the parent directory.
    fn on_listing(&mut self, items: &Vec<DirectoryItem>) -> (step: Step)
        ensures
            realizes(final(self)@, step, after_listing(old(self)@, listing_view(items@))),
    {
        let name = strip_leading_slash(self.path.as_str());
        match find_sha(items, &name) {
            Some(sha) => {
                self.phase = Phase::Decoding { sha: sha.clone() };
                Step { notice: None, action: Action::ReadBlob { sha } }
            },
            None => self.stop(None),
        }
    }

    /// Decides on the blob fetched under `sha`, given its base-64 text.
    fn on_blob_read(&mut self, sha: String, content: &str) -> (step: Step)
        ensures
            realizes(final(self)@, step, after_blob_read(old(self)@, sha@, content@)),
    {
        let text = strip_line_feeds(content.as_bytes());
        let decoded = decode_base64(text.as_slice());
        match compare_blob(self.target.as_slice(), &decoded) {
            Comparison::Unreadable => self.fail(None, Failure::BlobNotBase64),
            Comparison::Same => self.leave_unchanged(),
            Comparison::Different => self.update(sha),
        }
    }

    /// Takes in `event` and says what to do next.
    pub fn step(&mut self, event: &Event) -> (step: Step)
        ensures
            realizes(final(self)@, step, transition(old(self)@, event@)),
    {
        match event {
            Event::FileRead { content, sha } => {
                if matches!(self.phase, Phase::Reading) {
                    self.on_file_read(content.as_slice(), sha.clone())
                } else {
                    self.ignore()
                }
            },
            Event::ReadFailed { failure } => {
                if matches!(self.phase, Phase::Reading) {
                    self.on_read_failure(failure)
                } else {
                    self.ignore()
                }
            },
            Event::Listed { items } => {
                if matches!(self.phase, Phase::Listing) {
                    self.on_listing(items)
                } else {
                    self.ignore()
                }
            },
            Event::BlobRead { text } => {
                let awaited = match &self.phase {
                    Phase::Decoding { sha } => Some(sha.clone()),
                    _ => None,
                };
                match awaited {
                    Some(sha) => self.on_blob_read(sha, text.as_str()),
                    None => self.ignore(),
                }
            },
            Event::Settled => {
                if matches!(self.phase, Phase::Pausing) {
                    self.stop(None)
                } else if matches!(self.phase, Phase::Updating) {
                    let notice = updated_notice(self.path.as_str());
                    self.stop(Some(notice))
                } else if matches!(self.phase, Phase::Creating) {
                    let notice = created_notice(self.path.as_str());
                    self.stop(Some(notice))
                } else {
                    self.ignore()
                }
            },
        }
    }
}

} // verus!
