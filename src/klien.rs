//! Rules of the client record service: who may assign a client to which officer, how a
//! reassignment re-derives the denormalized office and region, and which rows a listing covers.

use vstd::prelude::*;
use crate::authorization::{check_permission, standard_access, ResourceOwnership};
use crate::errors::{AccessError, StorageError};
use crate::model::AuthenticatedUser;
use crate::ownership::{ownership_of_row, resolved, KlienOwnershipRow};
use crate::types::UserRoleEnum;

verus! {

/// Where an officer is placed: their local office and region, as their account records them.
#[derive(Clone, Copy, Debug, PartialEq, Eq, Structural)]
pub struct OfficerPlacement {
    pub bapas_id: Option<i32>,
    pub kanwil_id: Option<i32>,
}

/// What a lookup of an officer's placement may answer.
pub type PlacementLookup = Result<Option<OfficerPlacement>, StorageError>;

/// Explicit filters of a client listing; each one present narrows it.
#[derive(Clone, Copy, Debug, PartialEq, Eq, Structural)]
pub struct GetAllKlienParams {
    pub pk_id: Option<i32>,
    pub bapas_id: Option<i32>,
    pub kanwil_id: Option<i32>,
}

/// One condition of a client listing, over the ownership columns of a row. A comparison with
/// an absent id holds of no row.
#[derive(Clone, Copy, Debug, PartialEq, Eq, Structural)]
pub enum KlienCondition {
    /// The row is not soft-deleted.
    Live,
    KanwilIs(Option<i32>),
    BapasIs(Option<i32>),
    PkIs(i32),
}

/// The row of a client assigned to `pk_id`, an officer placed as the lookup answered:
/// the officer must exist and belong to a local office.
pub open spec fn assignment_outcome(
    row: KlienOwnershipRow,
    pk_id: i32,
    lookup: PlacementLookup,
) -> Result<KlienOwnershipRow, AccessError> {
    match lookup {
        Err(_) => Err(AccessError::Internal),
        Ok(None) => Err(AccessError::BadRequest),
        Ok(Some(p)) => match p.bapas_id {
            None => Err(AccessError::BadRequest),
            Some(b) => Ok(KlienOwnershipRow { pk_id, bapas_id: b, kanwil_id: p.kanwil_id, ..row }),
        },
    }
}

/// A new client assigned to `pk_id`: the officer must be valid, and the principal must have
/// authority over the ownership that the client would have.
pub open spec fn create_outcome(
    user: AuthenticatedUser,
    pk_id: i32,
    lookup: PlacementLookup,
) -> Result<KlienOwnershipRow, AccessError> {
    let fresh = KlienOwnershipRow { pk_id, bapas_id: 0, kanwil_id: None, deleted: false };
    match assignment_outcome(fresh, pk_id, lookup) {
        Err(e) => Err(e),
        Ok(r) => if standard_access(user, ownership_of_row(r)) {
            Ok(r)
        } else {
            Err(AccessError::Forbidden)
        },
    }
}

/// An update that may change the assigned officer: without a new officer the ownership
/// columns stay; with one, office and region are taken from the new officer's placement.
pub open spec fn reassignment_outcome(
    row: KlienOwnershipRow,
    new_pk: Option<i32>,
    lookup: PlacementLookup,
) -> Result<KlienOwnershipRow, AccessError> {
    match new_pk {
        None => Ok(row),
        Some(p) => assignment_outcome(row, p, lookup),
    }
}

pub open spec fn condition_holds(c: KlienCondition, row: KlienOwnershipRow) -> bool {
    match c {
        KlienCondition::Live => !row.deleted,
        KlienCondition::KanwilIs(k) => k is Some && row.kanwil_id == k,
        KlienCondition::BapasIs(b) => b is Some && Some(row.bapas_id) == b,
        KlienCondition::PkIs(p) => row.pk_id == p,
    }
}

pub open spec fn all_hold(cs: Seq<KlienCondition>, row: KlienOwnershipRow) -> bool {
    forall|i: int| 0 <= i < cs.len() ==> #[trigger] condition_holds(cs[i], row)
}

/// The explicit filters hold of a row.
pub open spec fn requested(params: GetAllKlienParams, row: KlienOwnershipRow) -> bool {
    &&& (params.pk_id matches Some(p) ==> row.pk_id == p)
    &&& (params.bapas_id matches Some(b) ==> row.bapas_id == b)
    &&& (params.kanwil_id matches Some(k) ==> row.kanwil_id == Some(k))
}

/// Assigns a client row to an officer, re-deriving its office and region from the officer's
/// placement. Other columns stay.
pub fn assign_officer(
    row: KlienOwnershipRow,
    pk_id: i32,
    lookup: PlacementLookup,
) -> (r: Result<KlienOwnershipRow, AccessError>)
    ensures
        r == assignment_outcome(row, pk_id, lookup),
{
    match lookup {
        Err(_) => Err(AccessError::Internal),
        Ok(None) => Err(AccessError::BadRequest),
        Ok(Some(p)) => match p.bapas_id {
            None => Err(AccessError::BadRequest),
            Some(b) => Ok(KlienOwnershipRow {
                pk_id,
                bapas_id: b,
                kanwil_id: p.kanwil_id,
                deleted: row.deleted,
            }),
        },
    }
}

/// Checks a new client's officer before insert: the officer must exist in a local office
/// (else bad request) and the principal must have authority over the resulting ownership
/// (else forbidden). Returns the ownership columns to store.
pub fn authorize_create_klien(
    user: &AuthenticatedUser,
    pk_id: i32,
    lookup: PlacementLookup,
) -> (r: Result<KlienOwnershipRow, AccessError>)
    ensures
        r == create_outcome(*user, pk_id, lookup),
{
    let fresh = KlienOwnershipRow { pk_id, bapas_id: 0, kanwil_id: None, deleted: false };
    match assign_officer(fresh, pk_id, lookup) {
        Err(e) => Err(e),
        Ok(r) => {
            let o = ResourceOwnership { pk_id: Some(r.pk_id), bapas_id: Some(r.bapas_id), kanwil_id: r.kanwil_id };
            if check_permission(user, &o) {
                Ok(r)
            } else {
                Err(AccessError::Forbidden)
            }
        },
    }
}

/// The ownership columns after an update whose patch may name a new officer.
pub fn reassign_klien(
    row: KlienOwnershipRow,
    new_pk: Option<i32>,
    lookup: PlacementLookup,
) -> (r: Result<KlienOwnershipRow, AccessError>)
    ensures
        r == reassignment_outcome(row, new_pk, lookup),
{
    match new_pk {
        None => Ok(row),
        Some(p) => assign_officer(row, p, lookup),
    }
}

/// After an update that assigns a live client to a valid officer, resolving the client's
/// ownership again yields that officer with the officer's own office and region.
pub proof fn lemma_reassignment_keeps_ownership_consistent(
    row: KlienOwnershipRow,
    officer: i32,
    placement: OfficerPlacement,
)
    requires
        !row.deleted,
        placement.bapas_id is Some,
    ensures
        reassignment_outcome(row, Some(officer), Ok(Some(placement))) matches Ok(updated)
            && resolved(Ok(Some(updated))) == Ok::<ResourceOwnership, AccessError>(
            ResourceOwnership {
                pk_id: Some(officer),
                bapas_id: placement.bapas_id,
                kanwil_id: placement.kanwil_id,
            },
        ),
{
}

proof fn lemma_all_hold_push(cs: Seq<KlienCondition>, c: KlienCondition, row: KlienOwnershipRow)
    ensures
        all_hold(cs.push(c), row) == (all_hold(cs, row) && condition_holds(c, row)),
{
    if all_hold(cs, row) && condition_holds(c, row) {
        assert forall|i: int| 0 <= i < cs.push(c).len() implies #[trigger] condition_holds(
            cs.push(c)[i],
            row,
        ) by {
            if i < cs.len() {
                assert(cs.push(c)[i] == cs[i]);
            }
        }
    }
    if all_hold(cs.push(c), row) {
        assert(cs.push(c)[cs.len() as int] == c);
        assert forall|i: int| 0 <= i < cs.len() implies #[trigger] condition_holds(cs[i], row) by {
            assert(cs.push(c)[i] == cs[i]);
        }
    }
}

/// The conditions of a client listing: live rows in the principal's scope (a super admin's is
/// everything, a regional admin's their region, a local-office admin's their office, an
/// officer's their own clients), narrowed by every explicit filter and never widened.
pub fn klien_list_conditions(user: &AuthenticatedUser, params: &GetAllKlienParams) -> (r: Vec<KlienCondition>)
    ensures
        forall|row: KlienOwnershipRow|
            #[trigger] all_hold(r@, row) == (!row.deleted && standard_access(*user, ownership_of_row(row))
                && requested(*params, row)),
{
    let mut conds: Vec<KlienCondition> = Vec::new();
    conds.push(KlienCondition::Live);
    let ghost after_live = conds@;
    assert forall|row: KlienOwnershipRow| all_hold(after_live, row) == !row.deleted by {
        lemma_all_hold_push(Seq::empty(), KlienCondition::Live, row);
        assert(Seq::<KlienCondition>::empty().push(KlienCondition::Live) == after_live);
    }
    let scope = match user.role {
        UserRoleEnum::SuperAdmin => None,
        UserRoleEnum::AdminKanwil => Some(KlienCondition::KanwilIs(user.kanwil_id)),
        UserRoleEnum::AdminBapas => Some(KlienCondition::BapasIs(user.bapas_id)),
        UserRoleEnum::Pegawai => Some(KlienCondition::PkIs(user.id)),
    };
    if let Some(c) = scope {
        let ghost before = conds@;
        conds.push(c);
        assert forall|row: KlienOwnershipRow| #[trigger] all_hold(conds@, row) == (all_hold(before, row) && condition_holds(c, row)) by {
            lemma_all_hold_push(before, c, row);
        }
    }
    assert forall|row: KlienOwnershipRow| #[trigger] all_hold(conds@, row) == (!row.deleted && standard_access(*user, ownership_of_row(row))) by {
    }
    if let Some(k) = params.kanwil_id {
        let ghost before = conds@;
        conds.push(KlienCondition::KanwilIs(Some(k)));
        assert forall|row: KlienOwnershipRow| #[trigger] all_hold(conds@, row) == (all_hold(before, row) && row.kanwil_id == Some(k)) by {
            lemma_all_hold_push(before, KlienCondition::KanwilIs(Some(k)), row);
        }
    }
    if let Some(b) = params.bapas_id {
        let ghost before = conds@;
        conds.push(KlienCondition::BapasIs(Some(b)));
        assert forall|row: KlienOwnershipRow| #[trigger] all_hold(conds@, row) == (all_hold(before, row) && row.bapas_id == b) by {
            lemma_all_hold_push(before, KlienCondition::BapasIs(Some(b)), row);
        }
    }
    if let Some(p) = params.pk_id {
        let ghost before = conds@;
        conds.push(KlienCondition::PkIs(p));
        assert forall|row: KlienOwnershipRow| #[trigger] all_hold(conds@, row) == (all_hold(before, row) && row.pk_id == p) by {
            lemma_all_hold_push(before, KlienCondition::PkIs(p), row);
        }
    }
    conds
}

} // verus!
