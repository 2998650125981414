//! The errors of the adapter.

use vstd::prelude::*;
use crate::text::concat;

verus! {

/// What went wrong, with the text that describes the instance.
#[derive(Debug)]
pub enum AdapterError {
    /// A local descriptor or setting is missing or malformed.
    Config(String),
    /// The dashboard refused an operation.
    HomarrApi(String),
    /// The bootstrap credential or the login was refused.
    AuthRejected(String),
    /// The dashboard has no object of the requested name.
    NotFound(String),
    /// The persisted state cannot be read as state.
    State(String),
    /// A file could not be read or written.
    Io(String),
    /// The dashboard could not be reached.
    Http(String),
    /// An answer of the dashboard is not the JSON that was expected.
    Json(String),
    /// A descriptor is not valid TOML.
    TomlParse(String),
    /// Logging could not be set up.
    Tracing(String),
}

/// The classes of failure that callers treat differently.
#[derive(Debug, Clone, Copy, PartialEq, Eq, Structural)]
pub enum ErrorKind {
    /// Fatal to the file concerned, not to the run.
    ConfigError,
    /// Transport failure; worth another attempt at a later cycle.
    RemoteUnavailable,
    /// The answer was malformed.
    RemoteProtocol,
    /// Refused by the dashboard; another attempt would be refused the same way.
    RemoteRejected,
    /// Credential refused; needs an operator.
    AuthRejected,
    /// Absent on the dashboard; decides between create and reuse.
    NotFound,
    /// The stored state is unusable; a fresh state takes its place.
    StateCorrupt,
}

impl AdapterError {
    /// The class of this error.
    pub open spec fn spec_kind(&self) -> ErrorKind {
        match self {
            AdapterError::Config(_) => ErrorKind::ConfigError,
            AdapterError::HomarrApi(_) => ErrorKind::RemoteRejected,
            AdapterError::AuthRejected(_) => ErrorKind::AuthRejected,
            AdapterError::NotFound(_) => ErrorKind::NotFound,
            AdapterError::State(_) => ErrorKind::StateCorrupt,
            AdapterError::Io(_) => ErrorKind::ConfigError,
            AdapterError::Http(_) => ErrorKind::RemoteUnavailable,
            AdapterError::Json(_) => ErrorKind::RemoteProtocol,
            AdapterError::TomlParse(_) => ErrorKind::ConfigError,
            AdapterError::Tracing(_) => ErrorKind::ConfigError,
        }
    }

    /// The class of this error.
    #[verifier::when_used_as_spec(spec_kind)]
    pub fn kind(&self) -> (k: ErrorKind)
        ensures
            k == self.spec_kind(),
    {
        match self {
            AdapterError::Config(_) => ErrorKind::ConfigError,
            AdapterError::HomarrApi(_) => ErrorKind::RemoteRejected,
            AdapterError::AuthRejected(_) => ErrorKind::AuthRejected,
            AdapterError::NotFound(_) => ErrorKind::NotFound,
            AdapterError::State(_) => ErrorKind::StateCorrupt,
            AdapterError::Io(_) => ErrorKind::ConfigError,
            AdapterError::Http(_) => ErrorKind::RemoteUnavailable,
            AdapterError::Json(_) => ErrorKind::RemoteProtocol,
            AdapterError::TomlParse(_) => ErrorKind::ConfigError,
            AdapterError::Tracing(_) => ErrorKind::ConfigError,
        }
    }

    /// The text carried by the error.
    pub open spec fn detail(self) -> Seq<char> {
        match self {
            AdapterError::Config(s) => s@,
            AdapterError::HomarrApi(s) => s@,
            AdapterError::AuthRejected(s) => s@,
            AdapterError::NotFound(s) => s@,
            AdapterError::State(s) => s@,
            AdapterError::Io(s) => s@,
            AdapterError::Http(s) => s@,
            AdapterError::Json(s) => s@,
            AdapterError::TomlParse(s) => s@,
            AdapterError::Tracing(s) => s@,
        }
    }

    /// The heading under which an error of this variant is reported.
    pub open spec fn heading(self) -> Seq<char> {
        match self {
            AdapterError::Config(_) => "Configuration error: "@,
            AdapterError::HomarrApi(_) => "Homarr API error: "@,
            AdapterError::AuthRejected(_) => "Authentication rejected: "@,
            AdapterError::NotFound(_) => "Not found: "@,
            AdapterError::State(_) => "State file error: "@,
            AdapterError::Io(_) => "IO error: "@,
            AdapterError::Http(_) => "HTTP error: "@,
            AdapterError::Json(_) => "JSON error: "@,
            AdapterError::TomlParse(_) => "TOML parse error: "@,
            AdapterError::Tracing(_) => "Tracing error: "@,
        }
    }

    /// The line that reports this error: its heading, then its text.
    pub fn message(&self) -> (r: String)
        ensures
            r@ == self.heading() + self.detail(),
    {
        match self {
            AdapterError::Config(s) => concat("Configuration error: ", s.as_str()),
            AdapterError::HomarrApi(s) => concat("Homarr API error: ", s.as_str()),
            AdapterError::AuthRejected(s) => concat("Authentication rejected: ", s.as_str()),
            AdapterError::NotFound(s) => concat("Not found: ", s.as_str()),
            AdapterError::State(s) => concat("State file error: ", s.as_str()),
            AdapterError::Io(s) => concat("IO error: ", s.as_str()),
            AdapterError::Http(s) => concat("HTTP error: ", s.as_str()),
            AdapterError::Json(s) => concat("JSON error: ", s.as_str()),
            AdapterError::TomlParse(s) => concat("TOML parse error: ", s.as_str()),
            AdapterError::Tracing(s) => concat("Tracing error: ", s.as_str()),
        }
    }
}

/// The exit code of a run: 0 for a run that came to its end, whatever
/// failed for single entries on the way; 1 for a run that could not load
/// its configuration or could not authenticate.
pub fn exit_code(outcome: &Result<(), AdapterError>) -> (code: u8)
    ensures
        code == if outcome is Ok { 0u8 } else { 1u8 },
{
    match outcome {
        Ok(_) => 0,
        Err(_) => 1,
    }
}

} // verus!
