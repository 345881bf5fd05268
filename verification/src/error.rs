//! Errors of an invocation, by the stage that raises them.
//!
//! Every error ends the invocation. Each type gives the text that is shown
//! for it through `message`.

use vstd::prelude::*;
use vstd::string::*;

verus! {

/// The command line does not describe exactly one valid operation.
#[derive(Debug, Clone, PartialEq, Eq)]
pub enum UsageError {
    /// Neither a file pattern nor list mode was given.
    MissingOperation,
    /// Both a file pattern and list mode were given.
    ConflictingOperations,
    /// The region name, as given, is not one the storage client knows.
    MalformedRegion(String),
    /// The file pattern does not compile; carries the compiler's complaint.
    MalformedPattern(String),
}

/// Mathematical value of a [`UsageError`].
pub enum UsageErrorView {
    MissingOperation,
    ConflictingOperations,
    MalformedRegion(Seq<char>),
    MalformedPattern(Seq<char>),
}

impl View for UsageError {
    type V = UsageErrorView;

    open spec fn view(&self) -> UsageErrorView {
        match self {
            UsageError::MissingOperation => UsageErrorView::MissingOperation,
            UsageError::ConflictingOperations => UsageErrorView::ConflictingOperations,
            UsageError::MalformedRegion(name) => UsageErrorView::MalformedRegion(name@),
            UsageError::MalformedPattern(reason) => UsageErrorView::MalformedPattern(reason@),
        }
    }
}

impl UsageErrorView {
    /// The text shown for this error.
    pub open spec fn message(self) -> Seq<char> {
        match self {
            UsageErrorView::MissingOperation =>
                "Either --file-pattern or --list-images must be provided"@,
            UsageErrorView::ConflictingOperations =>
                "--file-pattern and --list-images cannot be used together"@,
            UsageErrorView::MalformedRegion(name) => "Not a valid AWS region: "@ + name,
            UsageErrorView::MalformedPattern(reason) => "Invalid file pattern: "@ + reason,
        }
    }
}

impl UsageError {
    /// The text shown for this error.
    pub fn message(&self) -> (text: String)
        ensures
            text@ == self@.message(),
    {
        match self {
            UsageError::MissingOperation => String::from_str(
                "Either --file-pattern or --list-images must be provided",
            ),
            UsageError::ConflictingOperations => String::from_str(
                "--file-pattern and --list-images cannot be used together",
            ),
            UsageError::MalformedRegion(name) => String::from_str(
                "Not a valid AWS region: ",
            ).concat(name.as_str()),
            UsageError::MalformedPattern(reason) => String::from_str(
                "Invalid file pattern: ",
            ).concat(reason.as_str()),
        }
    }
}

/// A matched path cannot be turned into an object key.
#[derive(Debug, Clone, Copy, PartialEq, Eq)]
pub enum InvalidPath {
    /// The path is not valid text.
    NotText,
    /// The path has no file name: it is empty, or ends in `..` or in the root.
    NoFileName,
}

impl InvalidPath {
    /// The text shown for this error.
    pub open spec fn message_text(self) -> Seq<char> {
        match self {
            InvalidPath::NotText => "Invalid file path"@,
            InvalidPath::NoFileName => "Invalid file name"@,
        }
    }

    /// The text shown for this error.
    pub fn message(&self) -> (text: String)
        ensures
            text@ == self.message_text(),
    {
        match self {
            InvalidPath::NotText => String::from_str("Invalid file path"),
            InvalidPath::NoFileName => String::from_str("Invalid file name"),
        }
    }
}

/// A storage operation failed. Each variant carries the cause as reported.
#[derive(Debug, Clone, PartialEq, Eq)]
pub enum StorageError {
    /// The local file could not be opened or read.
    IoFailure(String),
    /// The storage service, or the way to it, refused or failed.
    RemoteFailure(String),
}

/// Mathematical value of a [`StorageError`].
pub enum StorageErrorView {
    IoFailure(Seq<char>),
    RemoteFailure(Seq<char>),
}

impl View for StorageError {
    type V = StorageErrorView;

    open spec fn view(&self) -> StorageErrorView {
        match self {
            StorageError::IoFailure(cause) => StorageErrorView::IoFailure(cause@),
            StorageError::RemoteFailure(cause) => StorageErrorView::RemoteFailure(cause@),
        }
    }
}

impl StorageErrorView {
    /// The text shown for this error.
    pub open spec fn message(self) -> Seq<char> {
        match self {
            StorageErrorView::IoFailure(cause) => "Could not read file: "@ + cause,
            StorageErrorView::RemoteFailure(cause) => "Storage service error: "@ + cause,
        }
    }
}

impl StorageError {
    /// The text shown for this error.
    pub fn message(&self) -> (text: String)
        ensures
            text@ == self@.message(),
    {
        match self {
            StorageError::IoFailure(cause) => String::from_str("Could not read file: ").concat(
                cause.as_str(),
            ),
            StorageError::RemoteFailure(cause) => String::from_str(
                "Storage service error: ",
            ).concat(cause.as_str()),
        }
    }
}

/// Why an invocation ended without success.
#[derive(Debug, Clone, PartialEq, Eq)]
pub enum Failure {
    Usage(UsageError),
    InvalidPath(InvalidPath),
    Storage(StorageError),
}

/// Mathematical value of a [`Failure`].
pub enum FailureView {
    Usage(UsageErrorView),
    InvalidPath(InvalidPath),
    Storage(StorageErrorView),
}

impl View for Failure {
    type V = FailureView;

    open spec fn view(&self) -> FailureView {
        match self {
            Failure::Usage(e) => FailureView::Usage(e@),
            Failure::InvalidPath(e) => FailureView::InvalidPath(*e),
            Failure::Storage(e) => FailureView::Storage(e@),
        }
    }
}

impl FailureView {
    /// The text shown for this failure: that of the error it wraps.
    pub open spec fn message(self) -> Seq<char> {
        match self {
            FailureView::Usage(e) => e.message(),
            FailureView::InvalidPath(e) => e.message_text(),
            FailureView::Storage(e) => e.message(),
        }
    }
}

impl Failure {
    /// The text shown for this failure.
    pub fn message(&self) -> (text: String)
        ensures
            text@ == self@.message(),
    {
        match self {
            Failure::Usage(e) => e.message(),
            Failure::InvalidPath(e) => e.message(),
            Failure::Storage(e) => e.message(),
        }
    }
}

} // verus!
