//! Failures of the command-line layer around the front end.

use vstd::prelude::*;
use vstd::string::StringExecFns;

verus! {

/// A failure of the command-line layer.
#[derive(Debug, Clone, PartialEq)]
pub enum CliError {
    InternalError(String),
    FolderCreationError(String),
    InvalidConfig(String),
    IOError(String),
}

/// The mathematical image of a [`CliError`].
pub enum CliErrorModel {
    InternalError(Seq<char>),
    FolderCreationError(Seq<char>),
    InvalidConfig(Seq<char>),
    IOError(Seq<char>),
}

impl View for CliError {
    type V = CliErrorModel;

    open spec fn view(&self) -> CliErrorModel {
        match self {
            CliError::InternalError(m) => CliErrorModel::InternalError(m@),
            CliError::FolderCreationError(m) => CliErrorModel::FolderCreationError(m@),
            CliError::InvalidConfig(m) => CliErrorModel::InvalidConfig(m@),
            CliError::IOError(m) => CliErrorModel::IOError(m@),
        }
    }
}

/// The rendered message of each failure, with its stable code.
pub open spec fn cli_error_message(e: CliErrorModel) -> Seq<char> {
    match e {
        CliErrorModel::InternalError(m) => "(C000): Internal error: "@ + m,
        CliErrorModel::FolderCreationError(m) => "(C001): Folder creation error: "@ + m,
        CliErrorModel::InvalidConfig(m) => "(C002): Invalid configuration: "@ + m,
        CliErrorModel::IOError(m) => "(C003): IO error: "@ + m,
    }
}

/// The human-readable, stably-coded message for a command-line failure.
pub fn get_print_error(error: &CliError) -> (r: String)
    ensures
        r@ == cli_error_message(error@),
{
    match error {
        CliError::InternalError(m) => {
            let mut s = "(C000): Internal error: ".to_owned();
            s.append(m.as_str());
            s
        },
        CliError::FolderCreationError(m) => {
            let mut s = "(C001): Folder creation error: ".to_owned();
            s.append(m.as_str());
            s
        },
        CliError::InvalidConfig(m) => {
            let mut s = "(C002): Invalid configuration: ".to_owned();
            s.append(m.as_str());
            s
        },
        CliError::IOError(m) => {
            let mut s = "(C003): IO error: ".to_owned();
            s.append(m.as_str());
            s
        },
    }
}

} // verus!
