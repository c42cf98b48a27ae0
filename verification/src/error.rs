use vstd::prelude::*;

verus! {

/// The reason a snapshot finalization failed.
///
/// Provider and sink failures carry the collaborator's own description of
/// what went wrong, already rendered to text by the caller that observed it.
#[derive(Debug, Clone)]
pub enum ErrorKind {
    /// The provider returned no addresses at all.
    EmptySnapshot,
    /// The node provider failed: unreachable, unauthorized, or a bad response.
    ApiError(String),
    /// Opening or writing the export sink failed.
    CsvError(String),
}

/// The error returned by a failed snapshot finalization.
#[derive(Debug, Clone)]
pub struct SnapshotError {
    pub kind: ErrorKind,
}

impl ErrorKind {
    /// A fixed, human-readable description of this kind of failure.
    pub fn message(&self) -> (r: String)
        ensures
            (self matches ErrorKind::EmptySnapshot)
                ==> r@ == "The snapshot returned no addresses."@,
            (self matches ErrorKind::ApiError(_))
                ==> r@ == "Something went wrong during the Komodod RPC."@,
            (self matches ErrorKind::CsvError(_))
                ==> r@ == "Something went wrong writing to CSV."@,
    {
        match self {
            ErrorKind::EmptySnapshot => "The snapshot returned no addresses.".to_owned(),
            ErrorKind::ApiError(_) => "Something went wrong during the Komodod RPC.".to_owned(),
            ErrorKind::CsvError(_) => "Something went wrong writing to CSV.".to_owned(),
        }
    }
}

impl SnapshotError {
    /// A fixed, human-readable description of the failure, taken from its kind.
    pub fn message(&self) -> (r: String)
        ensures
            (self.kind matches ErrorKind::EmptySnapshot)
                ==> r@ == "The snapshot returned no addresses."@,
            (self.kind matches ErrorKind::ApiError(_))
                ==> r@ == "Something went wrong during the Komodod RPC."@,
            (self.kind matches ErrorKind::CsvError(_))
                ==> r@ == "Something went wrong writing to CSV."@,
    {
        self.kind.message()
    }
}

impl From<ErrorKind> for SnapshotError {
    fn from(kind: ErrorKind) -> (r: Self) {
        SnapshotError { kind }
    }
}

impl vstd::std_specs::convert::FromSpecImpl<ErrorKind> for SnapshotError {
    open spec fn obeys_from_spec() -> bool {
        true
    }

    open spec fn from_spec(kind: ErrorKind) -> Self {
        SnapshotError { kind }
    }
}

} // verus!
