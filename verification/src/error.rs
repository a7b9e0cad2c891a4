//! Why a run can fail.

use vstd::prelude::*;

verus! {

/// A directory that is found as the parent of a path.
#[derive(Clone, Copy, Debug, PartialEq, Eq, Structural)]
pub enum Ancestor {
    /// The directory that holds the running executable.
    BinaryDirectory,
    /// The directory above the binary directory: the installation root.
    BaseDirectory,
    /// The directory above the one that git reports as its exec-path.
    LibexecDirectory,
}

/// The four causes a failure is sorted under.
#[derive(Clone, Copy, Debug, PartialEq, Eq, Structural)]
pub enum ErrorKind {
    /// The running executable or one of its ancestor directories is unknown.
    Environment,
    /// git did not start, did not exit cleanly, or printed no valid text.
    Subprocess,
    /// A path that should have a parent has none.
    PathDerivation,
    /// Removing the old entry or creating the link failed.
    Filesystem,
}

/// A failed run. Each run stops at its first failure.
#[derive(Clone, Debug, PartialEq, Eq)]
pub enum LinkError {
    /// The path of the running executable could not be had; with the report.
    Executable(String),
    /// A path has no parent where one is needed.
    MissingParent(Ancestor),
    /// git could not be run or exited with a failure; with the report.
    Subprocess(String),
    /// What git printed is not valid UTF-8.
    Encoding,
    /// The old entry could not be removed, or the link not created; with the
    /// report.
    Filesystem(String),
}

/// What a `LinkError` holds, as mathematical values.
pub enum LinkErrorView {
    Executable(Seq<char>),
    MissingParent(Ancestor),
    Subprocess(Seq<char>),
    Encoding,
    Filesystem(Seq<char>),
}

impl View for LinkError {
    type V = LinkErrorView;

    open spec fn view(&self) -> LinkErrorView {
        match *self {
            LinkError::Executable(report) => LinkErrorView::Executable(report@),
            LinkError::MissingParent(which) => LinkErrorView::MissingParent(which),
            LinkError::Subprocess(report) => LinkErrorView::Subprocess(report@),
            LinkError::Encoding => LinkErrorView::Encoding,
            LinkError::Filesystem(report) => LinkErrorView::Filesystem(report@),
        }
    }
}

/// The text that says which directory could not be determined.
pub open spec fn description_of(which: Ancestor) -> Seq<char> {
    match which {
        Ancestor::BinaryDirectory => "cannot determine binary directory"@,
        Ancestor::BaseDirectory => "cannot determine base directory"@,
        Ancestor::LibexecDirectory => "cannot determine libexec directory from exec-path"@,
    }
}

/// The cause a failure is sorted under.
pub open spec fn kind_of(error: LinkErrorView) -> ErrorKind {
    match error {
        LinkErrorView::Executable(_) => ErrorKind::Environment,
        LinkErrorView::MissingParent(Ancestor::LibexecDirectory) => ErrorKind::PathDerivation,
        LinkErrorView::MissingParent(_) => ErrorKind::Environment,
        LinkErrorView::Subprocess(_) => ErrorKind::Subprocess,
        LinkErrorView::Encoding => ErrorKind::Subprocess,
        LinkErrorView::Filesystem(_) => ErrorKind::Filesystem,
    }
}

impl Ancestor {
    /// Says which directory could not be determined.
    pub fn description(self) -> (text: String)
        ensures
            text@ == description_of(self),
    {
        match self {
            Ancestor::BinaryDirectory => "cannot determine binary directory".to_owned(),
            Ancestor::BaseDirectory => "cannot determine base directory".to_owned(),
            Ancestor::LibexecDirectory => "cannot determine libexec directory from exec-path"
                .to_owned(),
        }
    }
}

impl LinkError {
    /// The cause this failure is sorted under.
    pub fn kind(&self) -> (kind: ErrorKind)
        ensures
            kind == kind_of(self@),
    {
        match self {
            LinkError::Executable(_) => ErrorKind::Environment,
            LinkError::MissingParent(Ancestor::LibexecDirectory) => ErrorKind::PathDerivation,
            LinkError::MissingParent(_) => ErrorKind::Environment,
            LinkError::Subprocess(_) => ErrorKind::Subprocess,
            LinkError::Encoding => ErrorKind::Subprocess,
            LinkError::Filesystem(_) => ErrorKind::Filesystem,
        }
    }

    /// The failure in words: the description of a missing parent, the report
    /// that came with the failure, or a fixed sentence for undecodable output.
    pub fn message(&self) -> (text: String)
        ensures
            text@ == message_of(self@),
    {
        match self {
            LinkError::Executable(report) => report.clone(),
            LinkError::MissingParent(which) => which.description(),
            LinkError::Subprocess(report) => report.clone(),
            LinkError::Encoding => "exec-path is not valid UTF-8".to_owned(),
            LinkError::Filesystem(report) => report.clone(),
        }
    }
}

/// The failure in words.
pub open spec fn message_of(error: LinkErrorView) -> Seq<char> {
    match error {
        LinkErrorView::Executable(report) => report,
        LinkErrorView::MissingParent(which) => description_of(which),
        LinkErrorView::Subprocess(report) => report,
        LinkErrorView::Encoding => "exec-path is not valid UTF-8"@,
        LinkErrorView::Filesystem(report) => report,
    }
}

} // verus!
