//! The failures that end an invocation.

use vstd::prelude::*;
use vstd::string::StringExecFns;

verus! {

/// Why a command could not be completed.
#[derive(Debug, Clone, Copy, PartialEq, Eq, Structural)]
pub enum ApplicationError {
    /// The portfolio request did not yield a response body.
    FetchError,
    /// The snapshot file could not be written.
    DataSaveError,
    /// The data directory could not be determined or created.
    DirectoryError,
    /// `fetch` was asked for while no API token is configured.
    NoAPIToken,
    /// No snapshot could be made of the response body.
    ParseError,
    /// The preferences could not be persisted.
    PreferencesSaveError,
}

impl ApplicationError {
    /// The name of the failure, as it is shown to the user.
    pub open spec fn name(self) -> Seq<char> {
        match self {
            ApplicationError::FetchError => "FetchError"@,
            ApplicationError::DataSaveError => "DataSaveError"@,
            ApplicationError::DirectoryError => "DirectoryError"@,
            ApplicationError::NoAPIToken => "NoAPIToken"@,
            ApplicationError::ParseError => "ParseError"@,
            ApplicationError::PreferencesSaveError => "PreferencesSaveError"@,
        }
    }

    /// The one-line message for the user: `error: ` followed by the failure's name.
    pub fn message(&self) -> (text: String)
        ensures
            text@ == "error: "@ + self.name(),
    {
        let name = match self {
            ApplicationError::FetchError => "FetchError",
            ApplicationError::DataSaveError => "DataSaveError",
            ApplicationError::DirectoryError => "DirectoryError",
            ApplicationError::NoAPIToken => "NoAPIToken",
            ApplicationError::ParseError => "ParseError",
            ApplicationError::PreferencesSaveError => "PreferencesSaveError",
        };
        "error: ".to_owned().concat(name)
    }
}

} // verus!
