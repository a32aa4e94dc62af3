//! The errors of a shredding run, each naming the operation and the path.
use vstd::prelude::*;

verus! {

/// A filesystem operation of the pipeline.
#[derive(Clone, Copy, Debug, PartialEq, Eq, Structural)]
pub enum Operation {
    ReadMetadata,
    Open,
    Write,
    Flush,
    OpenForTimes,
    SetTimes,
    Remove,
}

/// What can stop a run. No failure is retried: each one ends the run.
#[derive(Debug)]
pub enum ShredError {
    /// A filesystem operation failed on `path`.
    Io { op: Operation, path: String },
    /// Renaming `from` to `to` failed (a collision, a missing permission).
    Rename { from: String, to: String },
    /// The path names a directory, which is not shredded.
    NotAFile { path: String },
    /// The path has no file-name component.
    InvalidPath { path: String },
    /// The operating system's secure random source gave no bytes.
    RandomSource,
}

/// The context text that a failed operation's message starts with.
pub open spec fn context_text(op: Operation) -> Seq<char> {
    match op {
        Operation::ReadMetadata => "Could not access file metadata: "@,
        Operation::Open => "Could not open/write file: "@,
        Operation::Write => "Failed writing: "@,
        Operation::Flush => "Failed syncing: "@,
        Operation::OpenForTimes => "Failed to open file for metadata update: "@,
        Operation::SetTimes => "Failed removing timestamps for file: "@,
        Operation::Remove => "Failed to remove file: "@,
    }
}

/// The message of an error, as shown to the operator.
pub open spec fn message_text(e: ShredError) -> Seq<char> {
    match e {
        ShredError::Io { op, path } => context_text(op) + path@,
        ShredError::Rename { from, to } => "Failed to rename "@ + from@ + " to "@ + to@,
        ShredError::NotAFile { path } => "Directory is not supported for removal: "@ + path@,
        ShredError::InvalidPath { path } => "File name not found in: "@ + path@,
        ShredError::RandomSource => "The secure random source is unavailable"@,
    }
}

impl Operation {
    /// The context text of this operation.
    pub fn context(&self) -> (r: &'static str)
        ensures
            r@ == context_text(*self),
    {
        match self {
            Operation::ReadMetadata => "Could not access file metadata: ",
            Operation::Open => "Could not open/write file: ",
            Operation::Write => "Failed writing: ",
            Operation::Flush => "Failed syncing: ",
            Operation::OpenForTimes => "Failed to open file for metadata update: ",
            Operation::SetTimes => "Failed removing timestamps for file: ",
            Operation::Remove => "Failed to remove file: ",
        }
    }
}

impl ShredError {
    /// The human-readable message of this error.
    pub fn message(&self) -> (r: String)
        ensures
            r@ == message_text(*self),
    {
        match self {
            ShredError::Io { op, path } => {
                let mut s = String::from_str(op.context());
                s.append(path.as_str());
                s
            },
            ShredError::Rename { from, to } => {
                let mut s = String::from_str("Failed to rename ");
                s.append(from.as_str());
                s.append(" to ");
                s.append(to.as_str());
                s
            },
            ShredError::NotAFile { path } => {
                let mut s = String::from_str("Directory is not supported for removal: ");
                s.append(path.as_str());
                s
            },
            ShredError::InvalidPath { path } => {
                let mut s = String::from_str("File name not found in: ");
                s.append(path.as_str());
                s
            },
            ShredError::RandomSource => String::from_str("The secure random source is unavailable"),
        }
    }
}

} // verus!
