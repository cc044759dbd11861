use vstd::prelude::*;
use vstd::string::*;

verus! {

/// What went wrong, one variant per failure of the bootstrap.
#[derive(Clone, Copy, Debug, PartialEq, Eq, Structural)]
pub enum ErrorKind {
    InvalidRegion,
    CredentialFile,
    MalformedCredentialFile,
    RequestFailed,
    JsonParse,
    MissingField,
    VersionFormat,
    InvalidHeaderValue,
    Unsupported,
    Other,
}

/// The kind and the user-facing message of an error.
pub open spec fn err_view(e: ValClientError) -> (ErrorKind, Seq<char>) {
    (e.kind, e.data@)
}

/// An error with a message for users (`data`) and a diagnostic for developers.
#[derive(Debug)]
pub struct ValClientError {
    pub kind: ErrorKind,
    pub data: String,
    pub debug: String,
}

impl ValClientError {
    /// An error of no particular kind.
    pub fn new(data_str: &str, debug_str: &str) -> (r: Self)
        ensures
            r.kind == ErrorKind::Other,
            r.data@ == data_str@,
            r.debug@ == debug_str@,
    {
        Self::with_kind(ErrorKind::Other, data_str, debug_str)
    }

    /// An error of the given kind.
    pub fn with_kind(kind: ErrorKind, data_str: &str, debug_str: &str) -> (r: Self)
        ensures
            r.kind == kind,
            r.data@ == data_str@,
            r.debug@ == debug_str@,
    {
        ValClientError {
            kind,
            data: String::from_str(data_str),
            debug: String::from_str(debug_str),
        }
    }

    /// A failed HTTP request, with the transport's own description.
    pub fn request_failed(debug: String) -> (r: Self)
        ensures
            r.kind == ErrorKind::RequestFailed,
            r.data@ == "Request failed"@,
            r.debug@ == debug@,
    {
        ValClientError { kind: ErrorKind::RequestFailed, data: String::from_str("Request failed"), debug }
    }

    /// The credential file could not be found or read.
    pub fn credential_file(debug: String) -> (r: Self)
        ensures
            r.kind == ErrorKind::CredentialFile,
            r.data@ == "Failed to fetch lockfile"@,
            r.debug@ == debug@,
    {
        ValClientError {
            kind: ErrorKind::CredentialFile,
            data: String::from_str("Failed to fetch lockfile"),
            debug,
        }
    }
}

} // verus!
