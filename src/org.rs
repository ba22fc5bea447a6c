//! Rules of the organizational-unit and staff-account services: regions, local offices and
//! the accounts of the staff who work in them.

use vstd::prelude::*;
use crate::authorization::{check_permission, standard_access, ResourceOwnership};
use crate::errors::{AccessError, StorageError};
use crate::model::AuthenticatedUser;
use crate::ownership::ownership_of_kanwil;
use crate::types::{UserRoleEnum, UserStatusAktifEnum, UserStatusKepegawaianEnum};

verus! {

/// Data for a new local office, placed under a region.
#[derive(Clone, Debug)]
pub struct CreateBapas {
    pub kanwil_id: i32,
    pub nama_bapas: String,
    pub kota_bapas: String,
    pub alamat_bapas: Option<String>,
    pub nomor_telepon_bapas: Option<String>,
    pub email_bapas: Option<String>,
}

/// Data for a new region.
#[derive(Clone, Debug)]
pub struct CreateKanwil {
    pub nama_kanwil: String,
    pub alamat_kanwil: Option<String>,
    pub nomor_telepon_kanwil: Option<String>,
    pub email_kanwil: Option<String>,
}

/// Data for a new staff account, with the password in clear; only its hash is stored.
#[derive(Clone, Debug)]
pub struct CreateUser {
    pub nip_user: String,
    pub nama_user: String,
    pub password: String,
    pub gelar_depan_user: Option<String>,
    pub gelar_belakang_user: Option<String>,
    pub pangkat_golongan_user: Option<String>,
    pub jabatan_user: Option<String>,
    pub bapas_id: Option<i32>,
    pub kanwil_id: Option<i32>,
    pub status_kepegawaian_user: UserStatusKepegawaianEnum,
    pub email_user: Option<String>,
    pub nomor_telepon_user: Option<String>,
    pub status_aktif_user: Option<UserStatusAktifEnum>,
    pub role_user: UserRoleEnum,
}

/// A partial update of a staff account: only the fields present change.
#[derive(Clone, Debug)]
pub struct UpdateUser {
    pub nip_user: Option<String>,
    pub nama_user: Option<String>,
    pub password: Option<String>,
    pub gelar_depan_user: Option<String>,
    pub gelar_belakang_user: Option<String>,
    pub pangkat_golongan_user: Option<String>,
    pub jabatan_user: Option<String>,
    pub bapas_id: Option<i32>,
    pub kanwil_id: Option<i32>,
    pub status_kepegawaian_user: Option<UserStatusKepegawaianEnum>,
    pub email_user: Option<String>,
    pub nomor_telepon_user: Option<String>,
    pub status_aktif_user: Option<UserStatusAktifEnum>,
    pub role_user: Option<UserRoleEnum>,
}

/// A staff account as stored, with its password already hashed.
#[derive(Clone, Debug)]
pub struct CreateUsers {
    pub nip_user: String,
    pub nama_user: String,
    pub gelar_depan_user: Option<String>,
    pub gelar_belakang_user: Option<String>,
    pub pangkat_golongan_user: Option<String>,
    pub jabatan_user: Option<String>,
    pub bapas_id: Option<i32>,
    pub kanwil_id: Option<i32>,
    pub status_kepegawaian_user: UserStatusKepegawaianEnum,
    pub email_user: Option<String>,
    pub nomor_telepon_user: Option<String>,
    pub status_aktif_user: Option<UserStatusAktifEnum>,
    pub role_user: Option<UserRoleEnum>,
    pub password_hash: String,
}

/// The organizational columns of a staff account.
#[derive(Clone, Copy, Debug, PartialEq, Eq, Structural)]
pub struct UserOwnershipRow {
    pub id: i32,
    pub bapas_id: Option<i32>,
    pub kanwil_id: Option<i32>,
}

/// A staff account is owned by the account itself, its local office and its region.
pub open spec fn ownership_of_user(u: UserOwnershipRow) -> ResourceOwnership {
    ResourceOwnership { pk_id: Some(u.id), bapas_id: u.bapas_id, kanwil_id: u.kanwil_id }
}

pub open spec fn allow_if(ok: bool) -> Result<(), AccessError> {
    if ok {
        Ok(())
    } else {
        Err(AccessError::Forbidden)
    }
}

/// Outcome of a lookup followed by a decision on what it found.
pub open spec fn looked_up<T>(lookup: Result<Option<T>, StorageError>, decide: spec_fn(T) -> bool) -> Result<(), AccessError> {
    match lookup {
        Err(_) => Err(AccessError::Internal),
        Ok(None) => Err(AccessError::NotFound),
        Ok(Some(t)) => allow_if(decide(t)),
    }
}

/// Regions are managed by super admins alone.
pub fn require_super_admin(user: &AuthenticatedUser) -> (r: Result<(), AccessError>)
    ensures
        r == allow_if(user.role == UserRoleEnum::SuperAdmin),
{
    match user.role {
        UserRoleEnum::SuperAdmin => Ok(()),
        _ => Err(AccessError::Forbidden),
    }
}

/// Creating, updating or deleting a local office under region `kanwil_id` takes authority over
/// that region: a super admin, or the admin of that region.
pub fn authorize_bapas_write(user: &AuthenticatedUser, kanwil_id: i32) -> (r: Result<(), AccessError>)
    ensures
        r == allow_if(standard_access(*user, ResourceOwnership { pk_id: None, bapas_id: None, kanwil_id: Some(kanwil_id) })),
        r is Ok <==> (user.role == UserRoleEnum::SuperAdmin
            || (user.role == UserRoleEnum::AdminKanwil && user.kanwil_id == Some(kanwil_id))),
{
    let o = ownership_of_kanwil(kanwil_id);
    if check_permission(user, &o) {
        Ok(())
    } else {
        Err(AccessError::Forbidden)
    }
}

/// Updating or deleting an existing local office, given the lookup of the region it belongs to.
pub fn authorize_bapas_management(
    user: &AuthenticatedUser,
    lookup: Result<Option<i32>, StorageError>,
) -> (r: Result<(), AccessError>)
    ensures
        r == looked_up(lookup, |k: i32| standard_access(*user, ResourceOwnership { pk_id: None, bapas_id: None, kanwil_id: Some(k) })),
{
    match lookup {
        Err(_) => Err(AccessError::Internal),
        Ok(None) => Err(AccessError::NotFound),
        Ok(Some(k)) => authorize_bapas_write(user, k),
    }
}

/// Reading a local office: a regional admin only within their region; every other role may.
pub fn authorize_bapas_read(user: &AuthenticatedUser, kanwil_id: i32) -> (r: Result<(), AccessError>)
    ensures
        r == allow_if(user.role == UserRoleEnum::AdminKanwil ==> user.kanwil_id == Some(kanwil_id)),
{
    match user.role {
        UserRoleEnum::AdminKanwil => match user.kanwil_id {
            Some(k) => if k == kanwil_id {
                Ok(())
            } else {
                Err(AccessError::Forbidden)
            },
            None => Err(AccessError::Forbidden),
        },
        _ => Ok(()),
    }
}

/// The region that a listing of local offices is limited to, if any: a regional admin sees the
/// offices of their own region (none when they have no region), every other role sees all.
pub fn bapas_list_scope(user: &AuthenticatedUser) -> (r: Option<Option<i32>>)
    ensures
        r == (if user.role == UserRoleEnum::AdminKanwil {
            Some(user.kanwil_id)
        } else {
            None
        }),
{
    match user.role {
        UserRoleEnum::AdminKanwil => Some(user.kanwil_id),
        _ => None,
    }
}

/// Who may create a staff account placed in local office `new_bapas_id`: a super admin
/// anywhere, a local-office admin only in their own office, which must be known.
pub open spec fn may_create_user(user: AuthenticatedUser, new_bapas_id: Option<i32>) -> bool {
    user.role == UserRoleEnum::SuperAdmin
        || (user.role == UserRoleEnum::AdminBapas && user.bapas_id is Some && new_bapas_id == user.bapas_id)
}

/// Checks that the principal may create a staff account in local office `new_bapas_id`.
pub fn authorize_create_user(user: &AuthenticatedUser, new_bapas_id: Option<i32>) -> (r: Result<(), AccessError>)
    ensures
        r == allow_if(may_create_user(*user, new_bapas_id)),
{
    match user.role {
        UserRoleEnum::SuperAdmin => Ok(()),
        UserRoleEnum::AdminBapas => {
            let same = match (new_bapas_id, user.bapas_id) {
                (Some(a), Some(b)) => a == b,
                _ => false,
            };
            if same {
                Ok(())
            } else {
                Err(AccessError::Forbidden)
            }
        },
        _ => Err(AccessError::Forbidden),
    }
}

/// Updating a staff account takes standard ownership over it: an officer may update only
/// their own account.
pub fn authorize_update_user(
    user: &AuthenticatedUser,
    lookup: Result<Option<UserOwnershipRow>, StorageError>,
) -> (r: Result<(), AccessError>)
    ensures
        r == looked_up(lookup, |t: UserOwnershipRow| standard_access(*user, ownership_of_user(t))),
{
    match lookup {
        Err(_) => Err(AccessError::Internal),
        Ok(None) => Err(AccessError::NotFound),
        Ok(Some(t)) => {
            let o = ResourceOwnership { pk_id: Some(t.id), bapas_id: t.bapas_id, kanwil_id: t.kanwil_id };
            if check_permission(user, &o) {
                Ok(())
            } else {
                Err(AccessError::Forbidden)
            }
        },
    }
}

} // verus!
