//! Why a listing stops.

use vstd::prelude::*;
use nix::errno::Errno;

verus! {

/// The error number that a failed query of the identity database reports.
/// Nothing is known of its value here; it is carried to the caller as it came.
#[verifier::external_type_specification]
#[verifier::external_body]
pub struct ExErrno(nix::errno::Errno);

/// Which of the two identity databases an id belongs to.
#[derive(Clone, Copy, Debug, PartialEq, Eq)]
pub enum IdentityKind {
    /// The id of a user.
    User,
    /// The id of a group.
    Group,
}

/// A failure that ends the listing. None of them is recovered from.
#[derive(Clone, Copy, Debug, PartialEq, Eq)]
pub enum ListError {
    /// The identity database could not be read.
    Io { kind: IdentityKind, id: u32, errno: Errno },
    /// The identity database holds no record for the id.
    IdentityNotFound { kind: IdentityKind, id: u32 },
    /// The modification time lies outside the years that the calendar covers.
    TimestampOutOfRange { seconds: i64 },
    /// The local time zone is said to be a day or more away from UTC.
    OffsetOutOfRange { offset: i32 },
}

impl ListError {
    /// Whether this is a failure to resolve the given id in the given database.
    pub open spec fn concerns(self, kind: IdentityKind, id: u32) -> bool {
        match self {
            ListError::Io { kind: k, id: i, .. } => k == kind && i == id,
            ListError::IdentityNotFound { kind: k, id: i } => k == kind && i == id,
            ListError::TimestampOutOfRange { .. } => false,
            ListError::OffsetOutOfRange { .. } => false,
        }
    }
}

} // verus!
