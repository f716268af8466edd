//! Owner and group names from the host's identity database.

use vstd::prelude::*;
use nix::errno::Errno;
use nix::unistd::{Gid, Group, Uid, User};
use crate::entry::EntryMetadata;
use crate::error::{IdentityKind, ListError};

verus! {

/// Asks the user database for the name that belongs to a user id.
///
/// Trusted: this is `nix::unistd::User::from_uid`, which queries the host's
/// user database. It answers `Ok(Some(..))` with the record where there is
/// one, `Ok(None)` where there is none, and `Err(..)` with the error number
/// where the query failed; the name is the record's `name` field. What it
/// answers depends on the host, so nothing is promised of it.
#[verifier::external_body]
fn user_name(uid: u32) -> (found: Result<Option<String>, Errno>) {
    User::from_uid(Uid::from_raw(uid)).map(|record| record.map(|user| user.name))
}

/// Asks the group database for the name that belongs to a group id.
///
/// Trusted: this is `nix::unistd::Group::from_gid`, which queries the host's
/// group database in the way `user_name` queries the user database. What it
/// answers depends on the host, so nothing is promised of it.
#[verifier::external_body]
fn group_name(gid: u32) -> (found: Result<Option<String>, Errno>) {
    Group::from_gid(Gid::from_raw(gid)).map(|record| record.map(|group| group.name))
}

/// What one answer of the identity database means for the listing: the name
/// where a record was found, and a failure where none exists or the database
/// could not be read.
pub fn identity_from_lookup(
    kind: IdentityKind,
    id: u32,
    found: Result<Option<String>, Errno>,
) -> (name: Result<String, ListError>)
    ensures
        match found {
            Ok(Some(text)) => name == Ok::<String, ListError>(text),
            Ok(None) => name == Err::<String, ListError>(ListError::IdentityNotFound { kind, id }),
            Err(errno) => name == Err::<String, ListError>(ListError::Io { kind, id, errno }),
        },
{
    match found {
        Ok(Some(text)) => Ok(text),
        Ok(None) => Err(ListError::IdentityNotFound { kind, id }),
        Err(errno) => Err(ListError::Io { kind, id, errno }),
    }
}

/// Puts the owner's name, once it is known, together with what the group
/// database answered: the pair of owner and group, in this order, where the
/// group has a record, and the group's failure where it has none.
pub fn names_with_group(
    owner: String,
    group_id: u32,
    found: Result<Option<String>, Errno>,
) -> (names: Result<(String, String), ListError>)
    ensures
        match found {
            Ok(Some(group)) => names == Ok::<(String, String), ListError>((owner, group)),
            Ok(None) => names == Err::<(String, String), ListError>(
                ListError::IdentityNotFound { kind: IdentityKind::Group, id: group_id },
            ),
            Err(errno) => names == Err::<(String, String), ListError>(
                ListError::Io { kind: IdentityKind::Group, id: group_id, errno },
            ),
        },
{
    match identity_from_lookup(IdentityKind::Group, group_id, found) {
        Ok(group) => Ok((owner, group)),
        Err(failure) => Err(failure),
    }
}

/// The display names of an entry's owner and of its group.
///
/// The owner is resolved first. The first id that cannot be resolved ends
/// the work, and the failure names that id: there is no fallback to the
/// number.
pub fn owner_and_group_of_file(metadata: &EntryMetadata) -> (names: Result<(String, String), ListError>)
    ensures
        names matches Err(failure) ==> failure.concerns(IdentityKind::User, metadata.owner_id)
            || failure.concerns(IdentityKind::Group, metadata.group_id),
{
    let uid = metadata.owner_id;
    let gid = metadata.group_id;

    let owner = match identity_from_lookup(IdentityKind::User, uid, user_name(uid)) {
        Ok(name) => name,
        Err(failure) => {
            return Err(failure);
        },
    };
    names_with_group(owner, gid, group_name(gid))
}

} // verus!
