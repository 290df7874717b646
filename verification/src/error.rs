//! The failures a run can end in, and how each is reported.

use vstd::prelude::*;
use vstd::string::*;

verus! {

/// Why a run could not be completed.
#[derive(Debug, Clone, PartialEq, Eq)]
pub enum DotsError {
    /// The home directory could not be determined.
    EnvironmentUnavailable,
    /// Creating or reading a directory or file failed; carries the system's own text.
    FilesystemError(String),
    /// The repository engine refused an operation; carries the engine's own text.
    RepositoryError(String),
    /// The options on the command line were malformed; carries the parser's text.
    InvalidOption(String),
    /// The first free token is not a known command; carries that token.
    InvalidCommand(String),
    /// No command was given at all.
    MissingCommand,
    /// The named command needs a file argument and none was given.
    MissingArgument(String),
}

/// Mathematical counterpart of [`DotsError`].
pub enum DotsErrorView {
    EnvironmentUnavailable,
    FilesystemError(Seq<char>),
    RepositoryError(Seq<char>),
    InvalidOption(Seq<char>),
    InvalidCommand(Seq<char>),
    MissingCommand,
    MissingArgument(Seq<char>),
}

impl View for DotsError {
    type V = DotsErrorView;

    open spec fn view(&self) -> DotsErrorView {
        match self {
            DotsError::EnvironmentUnavailable => DotsErrorView::EnvironmentUnavailable,
            DotsError::FilesystemError(detail) => DotsErrorView::FilesystemError(detail@),
            DotsError::RepositoryError(detail) => DotsErrorView::RepositoryError(detail@),
            DotsError::InvalidOption(detail) => DotsErrorView::InvalidOption(detail@),
            DotsError::InvalidCommand(token) => DotsErrorView::InvalidCommand(token@),
            DotsError::MissingCommand => DotsErrorView::MissingCommand,
            DotsError::MissingArgument(command) => DotsErrorView::MissingArgument(command@),
        }
    }
}

impl DotsErrorView {
    /// The text shown to the user for this failure.
    pub open spec fn message(self) -> Seq<char> {
        match self {
            DotsErrorView::EnvironmentUnavailable => "unable to get home directory"@,
            DotsErrorView::FilesystemError(detail) => detail,
            DotsErrorView::RepositoryError(detail) => detail,
            DotsErrorView::InvalidOption(detail) => detail,
            DotsErrorView::InvalidCommand(token) => "invalid command: "@ + token,
            DotsErrorView::MissingCommand => "must provide command to run"@,
            DotsErrorView::MissingArgument(command) => "missing file argument for command: "@
                + command,
        }
    }

    /// Whether the failure ends the process abruptly instead of being printed.
    ///
    /// Malformed options and missing arguments abort; everything else is
    /// printed like ordinary output.
    pub open spec fn aborts(self) -> bool {
        self is InvalidOption || self is MissingCommand || self is MissingArgument
    }
}

impl DotsError {
    /// The text shown to the user for this failure.
    pub fn message(&self) -> (text: String)
        ensures
            text@ == self@.message(),
    {
        match self {
            DotsError::EnvironmentUnavailable => String::from_str("unable to get home directory"),
            DotsError::FilesystemError(detail) => detail.clone(),
            DotsError::RepositoryError(detail) => detail.clone(),
            DotsError::InvalidOption(detail) => detail.clone(),
            DotsError::InvalidCommand(token) => String::from_str("invalid command: ").concat(
                token.as_str(),
            ),
            DotsError::MissingCommand => String::from_str("must provide command to run"),
            DotsError::MissingArgument(command) => String::from_str(
                "missing file argument for command: ",
            ).concat(command.as_str()),
        }
    }

    /// Whether the failure ends the process abruptly instead of being printed.
    pub fn aborts(&self) -> (abrupt: bool)
        ensures
            abrupt == self@.aborts(),
    {
        match self {
            DotsError::InvalidOption(_) => true,
            DotsError::MissingCommand => true,
            DotsError::MissingArgument(_) => true,
            _ => false,
        }
    }
}

} // verus!
