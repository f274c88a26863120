//! The vocabulary shared with the repository service: what can be asked of
//! it and what it can answer.
//!
//! The caller owns the connection.  It carries out each [`Action`] and
//! reports the outcome as an [`Event`]; nothing in this crate touches the
//! network.

use vstd::prelude::*;

verus! {

/// One entry of a directory listing.
#[derive(Debug, Clone, PartialEq, Eq)]
pub struct DirectoryItem {
    /// Path of the entry from the repository root, without a leading slash.
    pub path: String,
    /// Content hash of the entry.
    pub sha: String,
}

pub struct DirectoryItemView {
    pub path: Seq<char>,
    pub sha: Seq<char>,
}

impl View for DirectoryItem {
    type V = DirectoryItemView;

    open spec fn view(&self) -> DirectoryItemView {
        DirectoryItemView { path: self.path@, sha: self.sha@ }
    }
}

/// The entries of a listing, each by its view.
pub open spec fn listing_view(items: Seq<DirectoryItem>) -> Seq<DirectoryItemView> {
    items.map_values(|item: DirectoryItem| item@)
}

/// Why reading a file failed.
#[derive(Debug, Clone, PartialEq, Eq)]
pub enum ReadFailure {
    /// The rate limit is exhausted; it resets after the given time.
    RateLimit { reset_secs: u64, reset_nanos: u32 },
    /// The service refused the request.  `message` is the refusal's own
    /// text, `detail` a rendering of the whole error for diagnostics.
    Fault { code: u16, message: String, detail: String },
    /// Anything else, rendered for diagnostics.
    Other { detail: String },
}

pub enum ReadFailureView {
    RateLimit { reset_secs: u64, reset_nanos: u32 },
    Fault { code: u16, message: Seq<char>, detail: Seq<char> },
    Other { detail: Seq<char> },
}

impl View for ReadFailure {
    type V = ReadFailureView;

    open spec fn view(&self) -> ReadFailureView {
        match *self {
            ReadFailure::RateLimit { reset_secs, reset_nanos } => ReadFailureView::RateLimit {
                reset_secs,
                reset_nanos,
            },
            ReadFailure::Fault { code, message, detail } => ReadFailureView::Fault {
                code,
                message: message@,
                detail: detail@,
            },
            ReadFailure::Other { detail } => ReadFailureView::Other { detail: detail@ },
        }
    }
}

/// What the service answered, or that something asked for has ended.
#[derive(Debug, Clone, PartialEq, Eq)]
pub enum Event {
    /// The file was read: its raw bytes and its content hash.
    FileRead { content: Vec<u8>, sha: String },
    /// The file could not be read.
    ReadFailed { failure: ReadFailure },
    /// The directory was listed.
    Listed { items: Vec<DirectoryItem> },
    /// A blob was fetched: its base-64 text, line feeds and all.
    BlobRead { text: String },
    /// The pause or the write that was asked for has ended.  A write may
    /// have failed; that is not reported.
    Settled,
}

pub enum EventView {
    FileRead { content: Seq<u8>, sha: Seq<char> },
    ReadFailed { failure: ReadFailureView },
    Listed { items: Seq<DirectoryItemView> },
    BlobRead { text: Seq<char> },
    Settled,
}

impl View for Event {
    type V = EventView;

    open spec fn view(&self) -> EventView {
        match *self {
            Event::FileRead { content, sha } => EventView::FileRead { content: content@, sha: sha@ },
            Event::ReadFailed { failure } => EventView::ReadFailed { failure: failure@ },
            Event::Listed { items } => EventView::Listed { items: listing_view(items@) },
            Event::BlobRead { text } => EventView::BlobRead { text: text@ },
            Event::Settled => EventView::Settled,
        }
    }
}

/// Why a reconciliation was given up.
#[derive(Debug, Clone, Copy, PartialEq, Eq, Structural)]
pub enum Failure {
    /// The rate-limit reset lies so far ahead that the pause cannot be
    /// expressed.
    PauseTooLong,
    /// The blob fetched for comparison is not valid base-64.
    BlobNotBase64,
}

/// What the caller is to do next.
#[derive(Debug, Clone, PartialEq, Eq)]
pub enum Action {
    /// Read the file at `path` on `branch`.
    ReadFile { path: String, branch: String },
    /// Sleep for the given time.
    Pause { secs: u64, nanos: u32 },
    /// List the directory at `path` on `branch`.
    List { path: String, branch: String },
    /// Fetch the blob with content hash `sha`.
    ReadBlob { sha: String },
    /// Replace the file at `path` on `branch`, whose current content hash
    /// is `sha`, with `content`.
    Update { path: String, content: Vec<u8>, message: String, sha: String, branch: String },
    /// Create the file at `path` on `branch` with `content`.
    Create { path: String, content: Vec<u8>, message: String, branch: String },
    /// Nothing more: the reconciliation has ended.
    Stop,
    /// Nothing new: the event answered no outstanding request.
    Wait,
    /// Give up, as for a failed precondition.
    Fail { failure: Failure },
}

pub enum ActionView {
    ReadFile { path: Seq<char>, branch: Seq<char> },
    Pause { secs: u64, nanos: u32 },
    List { path: Seq<char>, branch: Seq<char> },
    ReadBlob { sha: Seq<char> },
    Update {
        path: Seq<char>,
        content: Seq<u8>,
        message: Seq<char>,
        sha: Seq<char>,
        branch: Seq<char>,
    },
    Create { path: Seq<char>, content: Seq<u8>, message: Seq<char>, branch: Seq<char> },
    Stop,
    Wait,
    Fail { failure: Failure },
}

impl View for Action {
    type V = ActionView;

    open spec fn view(&self) -> ActionView {
        match *self {
            Action::ReadFile { path, branch } => ActionView::ReadFile {
                path: path@,
                branch: branch@,
            },
            Action::Pause { secs, nanos } => ActionView::Pause { secs, nanos },
            Action::List { path, branch } => ActionView::List { path: path@, branch: branch@ },
            Action::ReadBlob { sha } => ActionView::ReadBlob { sha: sha@ },
            Action::Update { path, content, message, sha, branch } => ActionView::Update {
                path: path@,
                content: content@,
                message: message@,
                sha: sha@,
                branch: branch@,
            },
            Action::Create { path, content, message, branch } => ActionView::Create {
                path: path@,
                content: content@,
                message: message@,
                branch: branch@,
            },
            Action::Stop => ActionView::Stop,
            Action::Wait => ActionView::Wait,
            Action::Fail { failure } => ActionView::Fail { failure },
        }
    }
}

/// Whether an action changes the repository.
pub open spec fn is_write(action: ActionView) -> bool {
    action is Update || action is Create
}

impl Action {
    /// Whether this action changes the repository.
    pub fn is_write(&self) -> (write: bool)
        ensures
            write == is_write(self@),
    {
        match self {
            Action::Update { .. } => true,
            Action::Create { .. } => true,
            _ => false,
        }
    }
}

} // verus!
