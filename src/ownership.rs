//! The ownership resolver: turns what storage answered about a resource into the ownership
//! tuple that the permission engine decides on, and the access checks built on the two.

use vstd::prelude::*;
use crate::authorization::{authorized, is_authorized, AccessVariant, ResourceOwnership};
use crate::errors::{AccessError, StorageError};
use crate::model::AuthenticatedUser;

verus! {

/// The ownership columns of one client row, and whether the row was soft-deleted.
#[derive(Clone, Copy, Debug, PartialEq, Eq, Structural)]
pub struct KlienOwnershipRow {
    pub pk_id: i32,
    pub bapas_id: i32,
    pub kanwil_id: Option<i32>,
    pub deleted: bool,
}

/// What a lookup of one client's ownership row may answer.
pub type KlienLookup = Result<Option<KlienOwnershipRow>, StorageError>;

/// The ownership tuple of a live client row.
pub open spec fn ownership_of_row(row: KlienOwnershipRow) -> ResourceOwnership {
    ResourceOwnership { pk_id: Some(row.pk_id), bapas_id: Some(row.bapas_id), kanwil_id: row.kanwil_id }
}

/// The resolver's answer for a client: storage failure is internal, an absent or
/// soft-deleted row is not found.
pub open spec fn resolved(lookup: KlienLookup) -> Result<ResourceOwnership, AccessError> {
    match lookup {
        Err(_) => Err(AccessError::Internal),
        Ok(None) => Err(AccessError::NotFound),
        Ok(Some(row)) => if row.deleted {
            Err(AccessError::NotFound)
        } else {
            Ok(ownership_of_row(row))
        },
    }
}

/// The answer of an access check on a client: resolution first, then the decision.
pub open spec fn access_outcome(
    user: AuthenticatedUser,
    lookup: KlienLookup,
    variant: AccessVariant,
) -> Result<(), AccessError> {
    match resolved(lookup) {
        Err(e) => Err(e),
        Ok(o) => if authorized(user, o, variant) {
            Ok(())
        } else {
            Err(AccessError::Forbidden)
        },
    }
}

/// A sub-record's link to the client it belongs to, and whether the sub-record was
/// soft-deleted.
#[derive(Clone, Copy, Debug, PartialEq, Eq, Structural)]
pub struct ParentRow {
    pub klien_id: i32,
    pub deleted: bool,
}

/// What a lookup of a sub-record's parent link may answer.
pub type ParentLookup = Result<Option<ParentRow>, StorageError>;

/// The parent client of a sub-record: an absent or soft-deleted sub-record is not found.
pub open spec fn parent_outcome(lookup: ParentLookup) -> Result<i32, AccessError> {
    match lookup {
        Err(_) => Err(AccessError::Internal),
        Ok(None) => Err(AccessError::NotFound),
        Ok(Some(p)) => if p.deleted {
            Err(AccessError::NotFound)
        } else {
            Ok(p.klien_id)
        },
    }
}

/// The answer of an access check on a sub-record: its parent link first, then the access
/// check on the parent client under the given variant.
pub open spec fn child_access_outcome(
    user: AuthenticatedUser,
    parent: ParentLookup,
    lookup: KlienLookup,
    variant: AccessVariant,
) -> Result<(), AccessError> {
    match parent_outcome(parent) {
        Err(e) => Err(e),
        Ok(_) => access_outcome(user, lookup, variant),
    }
}

/// Resolves the ownership of a client from its row.
pub fn resolve_klien_ownership(lookup: KlienLookup) -> (r: Result<ResourceOwnership, AccessError>)
    ensures
        r == resolved(lookup),
{
    match lookup {
        Err(_) => Err(AccessError::Internal),
        Ok(None) => Err(AccessError::NotFound),
        Ok(Some(row)) => {
            if row.deleted {
                Err(AccessError::NotFound)
            } else {
                Ok(ResourceOwnership {
                    pk_id: Some(row.pk_id),
                    bapas_id: Some(row.bapas_id),
                    kanwil_id: row.kanwil_id,
                })
            }
        },
    }
}

/// The ownership of a local office: its own id, nothing else.
pub fn ownership_of_bapas(bapas_id: i32) -> (r: ResourceOwnership)
    ensures
        r == (ResourceOwnership { pk_id: None, bapas_id: Some(bapas_id), kanwil_id: None }),
{
    ResourceOwnership { pk_id: None, bapas_id: Some(bapas_id), kanwil_id: None }
}

/// The ownership of a region: its own id, nothing else.
pub fn ownership_of_kanwil(kanwil_id: i32) -> (r: ResourceOwnership)
    ensures
        r == (ResourceOwnership { pk_id: None, bapas_id: None, kanwil_id: Some(kanwil_id) }),
{
    ResourceOwnership { pk_id: None, bapas_id: None, kanwil_id: Some(kanwil_id) }
}

/// The parent client of a sub-record: a missing or soft-deleted sub-record is not found.
pub fn resolve_parent(lookup: ParentLookup) -> (r: Result<i32, AccessError>)
    ensures
        r == parent_outcome(lookup),
{
    match lookup {
        Err(_) => Err(AccessError::Internal),
        Ok(None) => Err(AccessError::NotFound),
        Ok(Some(p)) => {
            if p.deleted {
                Err(AccessError::NotFound)
            } else {
                Ok(p.klien_id)
            }
        },
    }
}

/// Resolves a client's ownership, then applies the given variant; a denial is forbidden.
pub fn authorize_access(
    user: &AuthenticatedUser,
    lookup: KlienLookup,
    variant: AccessVariant,
) -> (r: Result<(), AccessError>)
    ensures
        r == access_outcome(*user, lookup, variant),
{
    match resolve_klien_ownership(lookup) {
        Err(e) => Err(e),
        Ok(o) => {
            if is_authorized(user, &o, variant) {
                Ok(())
            } else {
                Err(AccessError::Forbidden)
            }
        },
    }
}

/// Access to a client's case file and its sub-records, under standard ownership.
pub fn authorize_klien_access(user: &AuthenticatedUser, lookup: KlienLookup) -> (r: Result<(), AccessError>)
    ensures
        r == access_outcome(*user, lookup, AccessVariant::Standard),
{
    authorize_access(user, lookup, AccessVariant::Standard)
}

/// Recording a check-in for a client: an officer may do so for any client of their office.
pub fn authorize_petugas_lapor_access(user: &AuthenticatedUser, lookup: KlienLookup) -> (r: Result<(), AccessError>)
    ensures
        r == access_outcome(*user, lookup, AccessVariant::OfficerBroadened),
{
    authorize_access(user, lookup, AccessVariant::OfficerBroadened)
}

/// Access to a sub-record, given the lookup of its parent link and the lookup of the parent
/// client's ownership. The second lookup is consulted only when the first found a live
/// sub-record.
pub fn authorize_child_access(
    user: &AuthenticatedUser,
    parent: ParentLookup,
    lookup: KlienLookup,
    variant: AccessVariant,
) -> (r: Result<(), AccessError>)
    ensures
        r == child_access_outcome(*user, parent, lookup, variant),
{
    match resolve_parent(parent) {
        Err(e) => Err(e),
        Ok(_) => authorize_access(user, lookup, variant),
    }
}

/// Deleting a check-in, given the lookup of the check-in's link to its client and the lookup
/// of that client's ownership: never an officer.
pub fn authorize_wajib_lapor_delete_access(
    user: &AuthenticatedUser,
    parent: ParentLookup,
    lookup: KlienLookup,
) -> (r: Result<(), AccessError>)
    ensures
        r == child_access_outcome(*user, parent, lookup, AccessVariant::DeleteRestricted),
{
    authorize_child_access(user, parent, lookup, AccessVariant::DeleteRestricted)
}

} // verus!
