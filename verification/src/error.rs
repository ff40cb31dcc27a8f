//! The kinds of failure, and what each of them means for a run.

use vstd::prelude::*;

verus! {

/// What can go wrong.
#[derive(Clone, Copy, Debug, PartialEq, Eq, Structural)]
pub enum ErrorKind {
    /// The metadata of a file could not be read.
    MetadataUnavailable,
    /// A file could not be opened.
    OpenFailed,
    /// A read from a file failed.
    ReadFailed,
    /// An entropy range was not of the form `min-max`.
    InvalidThresholdFormat,
    /// The path to analyse is neither a file nor a directory.
    NoSuchPath,
}

/// How far a failure reaches.
#[derive(Clone, Copy, Debug, PartialEq, Eq, Structural)]
pub enum Reach {
    /// The file is left out of the results; the run goes on.
    SkipFile,
    /// A warning is given and the filter is skipped.
    SkipFilter,
    /// The run ends.
    Abort,
}

impl ErrorKind {
    /// The reach of each kind: failures on one file are local to it, a bad
    /// entropy range only disables the filter, a missing path is fatal.
    pub open spec fn reach_of(self) -> Reach {
        match self {
            ErrorKind::MetadataUnavailable => Reach::SkipFile,
            ErrorKind::OpenFailed => Reach::SkipFile,
            ErrorKind::ReadFailed => Reach::SkipFile,
            ErrorKind::InvalidThresholdFormat => Reach::SkipFilter,
            ErrorKind::NoSuchPath => Reach::Abort,
        }
    }

    /// The text that describes each kind.
    pub open spec fn text(self) -> Seq<char> {
        match self {
            ErrorKind::MetadataUnavailable => "Failed to read file metadata"@,
            ErrorKind::OpenFailed => "Failed to open file"@,
            ErrorKind::ReadFailed => "Failed to read file"@,
            ErrorKind::InvalidThresholdFormat =>
                "Invalid threshold format. Expected format: min-max (e.g., 7.5-8.0)"@,
            ErrorKind::NoSuchPath => "Path does not exist"@,
        }
    }

    /// How far this failure reaches.
    pub fn reach(&self) -> (reach: Reach)
        ensures
            reach == self.reach_of(),
    {
        match self {
            ErrorKind::MetadataUnavailable => Reach::SkipFile,
            ErrorKind::OpenFailed => Reach::SkipFile,
            ErrorKind::ReadFailed => Reach::SkipFile,
            ErrorKind::InvalidThresholdFormat => Reach::SkipFilter,
            ErrorKind::NoSuchPath => Reach::Abort,
        }
    }

    /// A description of this failure.
    pub fn message(&self) -> (message: String)
        ensures
            message@ == self.text(),
    {
        match self {
            ErrorKind::MetadataUnavailable => "Failed to read file metadata".to_owned(),
            ErrorKind::OpenFailed => "Failed to open file".to_owned(),
            ErrorKind::ReadFailed => "Failed to read file".to_owned(),
            ErrorKind::InvalidThresholdFormat =>
                "Invalid threshold format. Expected format: min-max (e.g., 7.5-8.0)".to_owned(),
            ErrorKind::NoSuchPath => "Path does not exist".to_owned(),
        }
    }
}

} // verus!
