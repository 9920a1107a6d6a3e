//! The conditions under which the library gives up.

use vstd::prelude::*;
use crate::text::{append_decimal, decimal_text};

verus! {

/// Why the signatures of a C source could not be extracted.
#[derive(Clone, Copy, Debug, PartialEq, Eq, Structural)]
pub enum ExtractError {
    /// The parser produced no syntax tree, or one that reaches beyond the
    /// source.
    ParseFailed,
    /// The declaration query could not be compiled, or lacks one of its
    /// three captures.
    QueryUnavailable,
    /// A parameter has more than one level of indirection.
    MultiLevelIndirection,
    /// A matched declaration lacks a required part; `offset` is the byte
    /// at which the offending node starts.
    Malformed { offset: usize },
}

impl ExtractError {
    /// The condition in words.
    pub open spec fn message(self) -> Seq<char> {
        match self {
            ExtractError::ParseFailed => "source not parsed"@,
            ExtractError::QueryUnavailable => "declaration query unavailable"@,
            ExtractError::MultiLevelIndirection => {
                "declaration unsupported: multi-level indirection"@
            },
            ExtractError::Malformed { offset } => "malformed declaration at byte "@ + decimal_text(
                offset as nat,
            ),
        }
    }

    /// The condition in words.
    pub fn to_string(&self) -> (text: String)
        ensures
            text@ == self.message(),
    {
        match self {
            ExtractError::ParseFailed => "source not parsed".to_string(),
            ExtractError::QueryUnavailable => "declaration query unavailable".to_string(),
            ExtractError::MultiLevelIndirection => {
                "declaration unsupported: multi-level indirection".to_string()
            },
            ExtractError::Malformed { offset } => {
                let mut text = "malformed declaration at byte ".to_string();
                append_decimal(&mut text, *offset as u64);
                text
            },
        }
    }

    /// The error of a run that could not extract the signatures of the C
    /// source at `c_file_path`: whatever the condition, the run reports the
    /// file as one of invalid C format.
    pub fn in_file(&self, c_file_path: &str) -> (error: GlueError)
        ensures
            error@ == GlueErrorView::InvalidCFormat(c_file_path@),
    {
        GlueError::InvalidCFormat(c_file_path.to_string())
    }
}

/// Why a run of the generator stops.
#[derive(Clone, Debug, PartialEq, Eq)]
pub enum GlueError {
    InvalidCommandlineArguments,
    InvalidRunningMode(String),
    MissingRunningMode,
    MissingFilePath,
    UnableToReadFile(String),
    InvalidYamlFormat(String),
    InvalidCFormat(String),
    UnableToWriteFile(String),
    Other(String),
}

/// The mathematical value of a [`GlueError`].
pub enum GlueErrorView {
    InvalidCommandlineArguments,
    InvalidRunningMode(Seq<char>),
    MissingRunningMode,
    MissingFilePath,
    UnableToReadFile(Seq<char>),
    InvalidYamlFormat(Seq<char>),
    InvalidCFormat(Seq<char>),
    UnableToWriteFile(Seq<char>),
    Other(Seq<char>),
}

impl GlueErrorView {
    /// The one-line message shown to the user.
    pub open spec fn message(self) -> Seq<char> {
        match self {
            GlueErrorView::InvalidCommandlineArguments => "Invalid commandline arguments"@,
            GlueErrorView::InvalidRunningMode(mode) => "Invalid running mode: "@ + mode,
            GlueErrorView::MissingRunningMode => "Missing running mode"@,
            GlueErrorView::MissingFilePath => "Missing file path"@,
            GlueErrorView::UnableToReadFile(path) => "Unable to read file: "@ + path,
            GlueErrorView::InvalidYamlFormat(path) => "Invalid yaml format: "@ + path,
            GlueErrorView::InvalidCFormat(path) => "Invalid C format: "@ + path,
            GlueErrorView::UnableToWriteFile(path) => "Unable to write file: "@ + path,
            GlueErrorView::Other(text) => text,
        }
    }
}

impl View for GlueError {
    type V = GlueErrorView;

    open spec fn view(&self) -> GlueErrorView {
        match self {
            GlueError::InvalidCommandlineArguments => GlueErrorView::InvalidCommandlineArguments,
            GlueError::InvalidRunningMode(mode) => GlueErrorView::InvalidRunningMode(mode@),
            GlueError::MissingRunningMode => GlueErrorView::MissingRunningMode,
            GlueError::MissingFilePath => GlueErrorView::MissingFilePath,
            GlueError::UnableToReadFile(path) => GlueErrorView::UnableToReadFile(path@),
            GlueError::InvalidYamlFormat(path) => GlueErrorView::InvalidYamlFormat(path@),
            GlueError::InvalidCFormat(path) => GlueErrorView::InvalidCFormat(path@),
            GlueError::UnableToWriteFile(path) => GlueErrorView::UnableToWriteFile(path@),
            GlueError::Other(text) => GlueErrorView::Other(text@),
        }
    }
}

/// A fixed head followed by what the error carries.
fn headed(head: &str, tail: &String) -> (text: String)
    ensures
        text@ == head@ + tail@,
{
    let mut text = head.to_string();
    text.append(tail.as_str());
    text
}

impl GlueError {
    /// The one-line message shown to the user.
    pub fn to_string(&self) -> (text: String)
        ensures
            text@ == self@.message(),
    {
        match self {
            GlueError::InvalidCommandlineArguments => "Invalid commandline arguments".to_string(),
            GlueError::InvalidRunningMode(mode) => headed("Invalid running mode: ", mode),
            GlueError::MissingRunningMode => "Missing running mode".to_string(),
            GlueError::MissingFilePath => "Missing file path".to_string(),
            GlueError::UnableToReadFile(path) => headed("Unable to read file: ", path),
            GlueError::InvalidYamlFormat(path) => headed("Invalid yaml format: ", path),
            GlueError::InvalidCFormat(path) => headed("Invalid C format: ", path),
            GlueError::UnableToWriteFile(path) => headed("Unable to write file: ", path),
            GlueError::Other(text) => text.clone(),
        }
    }
}

} // verus!
