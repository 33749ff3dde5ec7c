//! The info command: the metadata of one package, line by line.

use vstd::prelude::*;
use vstd::string::*;
use crate::metadata::{record_lines, MetadataRecord};
use crate::text::texts;

verus! {

/// What the caller found when it opened the file to inspect.
#[derive(Debug, Clone)]
pub enum Opened {
    /// There is no regular file at the path.
    Missing,
    /// The file could not be read as a package; the text says why.
    Unreadable(String),
    /// The file is a package with this metadata.
    Package(MetadataRecord),
}

/// Why the info command failed.
#[derive(Debug, Clone, PartialEq, Eq)]
pub enum InfoError {
    /// There is no regular file at `path`.
    InvalidPath { path: String },
    /// The file could not be read as a package, for the reason in `cause`.
    UnreadableMetadata { cause: String },
}

/// An info error over plain text.
pub enum InfoErrorView {
    InvalidPath { path: Seq<char> },
    UnreadableMetadata { cause: Seq<char> },
}

impl View for InfoError {
    type V = InfoErrorView;

    open spec fn view(&self) -> InfoErrorView {
        match self {
            InfoError::InvalidPath { path } => InfoErrorView::InvalidPath { path: path@ },
            InfoError::UnreadableMetadata { cause } => InfoErrorView::UnreadableMetadata {
                cause: cause@,
            },
        }
    }
}

/// The message of an info error. Why a package could not be read is left to
/// the error's cause.
pub open spec fn info_error_message(error: InfoErrorView) -> Seq<char> {
    match error {
        InfoErrorView::InvalidPath { path } => "File '"@ + path + "' does not exist"@,
        InfoErrorView::UnreadableMetadata { cause } => "Failed to open as epub file"@,
    }
}

/// What the info command comes to for the file at `file`: the lines of the
/// package's metadata, or the error that fits what was found.
pub open spec fn info_outcome(file: Seq<char>, opened: Opened) -> Result<
    Seq<Seq<char>>,
    InfoErrorView,
> {
    match opened {
        Opened::Missing => Err(InfoErrorView::InvalidPath { path: file }),
        Opened::Unreadable(cause) => Err(InfoErrorView::UnreadableMetadata { cause: cause@ }),
        Opened::Package(record) => Ok(record_lines(record@)),
    }
}

/// Shows the metadata of a package.
#[derive(Debug, Clone)]
pub struct Info {
    /// The file to inspect.
    pub file: String,
}

impl Info {
    /// The lines to print for what the caller found at the file: every key of
    /// the metadata on a line of its own, each followed by its values in
    /// their order, one to a line and indented; nothing else.
    pub fn run(&self, opened: &Opened) -> (r: Result<Vec<String>, InfoError>)
        ensures
            match info_outcome(self.file@, *opened) {
                Ok(lines) => r is Ok && texts(r.unwrap()@) == lines,
                Err(error) => r is Err && r.unwrap_err()@ == error,
            },
    {
        match opened {
            Opened::Missing => Err(InfoError::InvalidPath { path: self.file.clone() }),
            Opened::Unreadable(cause) => Err(
                InfoError::UnreadableMetadata { cause: cause.clone() },
            ),
            Opened::Package(record) => Ok(record.lines()),
        }
    }
}

impl InfoError {
    /// The message that tells the user of this error.
    pub fn message(&self) -> (r: String)
        ensures
            r@ == info_error_message(self@),
    {
        match self {
            InfoError::InvalidPath { path } => String::from_str("File '").concat(
                path.as_str(),
            ).concat("' does not exist"),
            InfoError::UnreadableMetadata { cause } => String::from_str(
                "Failed to open as epub file",
            ),
        }
    }
}

} // verus!
