use aksara::authorization::{check_permission, is_authorized, AccessVariant, ResourceOwnership};
use aksara::errors::{AccessError, StorageError};
use aksara::model::{AuthContext, AuthenticatedUser, Claims};
use aksara::ownership::{
    authorize_klien_access, authorize_petugas_lapor_access, authorize_wajib_lapor_delete_access,
    authorize_child_access, ownership_of_bapas, ownership_of_kanwil, resolve_klien_ownership, resolve_parent,
    KlienOwnershipRow, ParentRow,
};
use aksara::types::UserRoleEnum;

fn principal(id: i32, role: UserRoleEnum, bapas_id: Option<i32>, kanwil_id: Option<i32>) -> AuthenticatedUser {
    AuthenticatedUser { id, role, bapas_id, kanwil_id }
}

fn owned(pk_id: Option<i32>, bapas_id: Option<i32>, kanwil_id: Option<i32>) -> ResourceOwnership {
    ResourceOwnership { pk_id, bapas_id, kanwil_id }
}

const ALL_VARIANTS: [AccessVariant; 3] =
    [AccessVariant::Standard, AccessVariant::OfficerBroadened, AccessVariant::DeleteRestricted];

const ALL_ROLES: [UserRoleEnum; 4] =
    [UserRoleEnum::Pegawai, UserRoleEnum::AdminBapas, UserRoleEnum::AdminKanwil, UserRoleEnum::SuperAdmin];

#[test]
fn region_admin_allowed_in_own_region() {
    let admin = principal(1, UserRoleEnum::AdminKanwil, None, Some(5));
    let res = owned(Some(99), Some(12), Some(5));
    assert!(is_authorized(&admin, &res, AccessVariant::Standard));
    assert!(check_permission(&admin, &res));
}

#[test]
fn region_admin_denied_in_other_region() {
    let admin = principal(1, UserRoleEnum::AdminKanwil, None, Some(5));
    let res = owned(Some(99), Some(12), Some(6));
    assert!(!is_authorized(&admin, &res, AccessVariant::Standard));
}

#[test]
fn officer_broadened_to_own_office() {
    let officer = principal(42, UserRoleEnum::Pegawai, Some(7), None);
    let res = owned(Some(999), Some(7), None);
    assert!(is_authorized(&officer, &res, AccessVariant::OfficerBroadened));
    assert!(!is_authorized(&officer, &res, AccessVariant::Standard));
}

#[test]
fn officer_never_deletes_check_ins() {
    let officer = principal(42, UserRoleEnum::Pegawai, Some(7), Some(3));
    for res in [owned(Some(42), Some(7), Some(3)), owned(Some(42), None, None), owned(Some(42), Some(8), Some(4))] {
        assert!(is_authorized(&officer, &res, AccessVariant::Standard));
        assert!(!is_authorized(&officer, &res, AccessVariant::DeleteRestricted));
    }
}

#[test]
fn missing_ids_fail_closed() {
    let full = owned(Some(42), Some(7), Some(3));
    let kanwil_admin_without_region = principal(1, UserRoleEnum::AdminKanwil, Some(7), None);
    let bapas_admin_without_office = principal(1, UserRoleEnum::AdminBapas, None, Some(3));
    let officer_without_office = principal(42, UserRoleEnum::Pegawai, None, Some(3));
    for v in ALL_VARIANTS {
        assert!(!is_authorized(&kanwil_admin_without_region, &full, v));
        assert!(!is_authorized(&bapas_admin_without_office, &full, v));
        assert!(!is_authorized(&principal(1, UserRoleEnum::AdminKanwil, Some(7), Some(3)), &owned(Some(42), Some(7), None), v));
        assert!(!is_authorized(&principal(1, UserRoleEnum::AdminBapas, Some(7), Some(3)), &owned(Some(42), None, Some(3)), v));
        assert!(!is_authorized(&principal(42, UserRoleEnum::Pegawai, Some(7), Some(3)), &owned(None, Some(7), Some(3)), AccessVariant::Standard));
    }
    assert!(!is_authorized(&officer_without_office, &full, AccessVariant::OfficerBroadened));
    assert!(!is_authorized(&principal(42, UserRoleEnum::Pegawai, Some(7), None), &owned(Some(1), None, None), AccessVariant::OfficerBroadened));
}

#[test]
fn higher_roles_keep_access() {
    let res = owned(Some(42), Some(7), Some(3));
    for v in ALL_VARIANTS {
        for (i, lower) in ALL_ROLES.iter().enumerate() {
            let who = principal(42, *lower, Some(7), Some(3));
            if is_authorized(&who, &res, v) {
                for higher in &ALL_ROLES[i..] {
                    assert!(is_authorized(&principal(42, *higher, Some(7), Some(3)), &res, v));
                }
            }
        }
    }
}

#[test]
fn decision_repeats() {
    let officer = principal(42, UserRoleEnum::Pegawai, Some(7), None);
    let res = owned(Some(999), Some(7), None);
    for v in ALL_VARIANTS {
        assert_eq!(is_authorized(&officer, &res, v), is_authorized(&officer, &res, v));
    }
}

#[test]
fn super_admin_always_allowed() {
    let root = principal(1, UserRoleEnum::SuperAdmin, None, None);
    for v in ALL_VARIANTS {
        assert!(is_authorized(&root, &owned(None, None, None), v));
    }
}

#[test]
fn soft_deleted_client_is_not_found() {
    let row = KlienOwnershipRow { pk_id: 42, bapas_id: 7, kanwil_id: Some(3), deleted: true };
    assert_eq!(resolve_klien_ownership(Ok(Some(row))), Err(AccessError::NotFound));
    let root = principal(1, UserRoleEnum::SuperAdmin, None, None);
    let outcome = authorize_klien_access(&root, Ok(Some(row)));
    assert_eq!(outcome, Err(AccessError::NotFound));
    assert_eq!(outcome.unwrap_err().status_code(), 404);
}

#[test]
fn resolver_outcomes() {
    let row = KlienOwnershipRow { pk_id: 42, bapas_id: 7, kanwil_id: None, deleted: false };
    assert_eq!(resolve_klien_ownership(Ok(Some(row))), Ok(owned(Some(42), Some(7), None)));
    assert_eq!(resolve_klien_ownership(Ok(None)), Err(AccessError::NotFound));
    assert_eq!(resolve_klien_ownership(Err(StorageError)), Err(AccessError::Internal));
    assert_eq!(ownership_of_bapas(7), owned(None, Some(7), None));
    assert_eq!(ownership_of_kanwil(3), owned(None, None, Some(3)));
    assert_eq!(resolve_parent(Ok(Some(ParentRow { klien_id: 11, deleted: false }))), Ok(11));
    assert_eq!(resolve_parent(Ok(Some(ParentRow { klien_id: 11, deleted: true }))), Err(AccessError::NotFound));
    assert_eq!(resolve_parent(Ok(None)), Err(AccessError::NotFound));
    assert_eq!(resolve_parent(Err(StorageError)), Err(AccessError::Internal));
}

#[test]
fn access_checks_by_variant() {
    let row = KlienOwnershipRow { pk_id: 999, bapas_id: 7, kanwil_id: Some(3), deleted: false };
    let officer = principal(42, UserRoleEnum::Pegawai, Some(7), Some(3));
    assert_eq!(authorize_klien_access(&officer, Ok(Some(row))), Err(AccessError::Forbidden));
    assert_eq!(authorize_petugas_lapor_access(&officer, Ok(Some(row))), Ok(()));
    let own = KlienOwnershipRow { pk_id: 42, ..row };
    assert_eq!(authorize_klien_access(&officer, Ok(Some(own))), Ok(()));
    let link = Ok(Some(ParentRow { klien_id: 1, deleted: false }));
    assert_eq!(authorize_wajib_lapor_delete_access(&officer, link, Ok(Some(own))), Err(AccessError::Forbidden));
    let office_admin = principal(5, UserRoleEnum::AdminBapas, Some(7), None);
    assert_eq!(authorize_wajib_lapor_delete_access(&office_admin, link, Ok(Some(row))), Ok(()));
    let deleted_link = Ok(Some(ParentRow { klien_id: 1, deleted: true }));
    assert_eq!(authorize_wajib_lapor_delete_access(&office_admin, deleted_link, Ok(Some(row))), Err(AccessError::NotFound));
    assert_eq!(authorize_wajib_lapor_delete_access(&office_admin, Ok(None), Ok(Some(row))), Err(AccessError::NotFound));
    assert_eq!(authorize_wajib_lapor_delete_access(&office_admin, Err(StorageError), Ok(Some(row))), Err(AccessError::Internal));
    assert_eq!(authorize_wajib_lapor_delete_access(&office_admin, link, Err(StorageError)), Err(AccessError::Internal));
    assert_eq!(authorize_child_access(&officer, link, Ok(Some(own)), AccessVariant::Standard), Ok(()));
    assert_eq!(authorize_child_access(&officer, link, Ok(Some(row)), AccessVariant::Standard), Err(AccessError::Forbidden));
    assert_eq!(authorize_klien_access(&office_admin, Err(StorageError)), Err(AccessError::Internal));
    assert_eq!(authorize_petugas_lapor_access(&office_admin, Ok(None)), Err(AccessError::NotFound));
}

#[test]
fn status_codes() {
    assert_eq!(AccessError::NotFound.status_code(), 404);
    assert_eq!(AccessError::Forbidden.status_code(), 403);
    assert_eq!(AccessError::BadRequest.status_code(), 400);
    assert_eq!(AccessError::Unauthorized.status_code(), 401);
    assert_eq!(AccessError::Conflict.status_code(), 409);
    assert_eq!(AccessError::Internal.status_code(), 500);
}

#[test]
fn principal_from_claims() {
    let claims = Claims { sub: 42, role: UserRoleEnum::AdminBapas, bapas_id: Some(7), kanwil_id: Some(3), exp: 1000 };
    assert_eq!(AuthenticatedUser::from_claims(&claims), principal(42, UserRoleEnum::AdminBapas, Some(7), Some(3)));
    let ctx = AuthContext::new(&claims, 7, 99);
    assert!(ctx.is_in_same_bapas());
    assert_eq!(ctx.klien_pk_id, 99);
    assert!(!AuthContext::new(&claims, 8, 99).is_in_same_bapas());
    let no_office = Claims { bapas_id: None, ..claims };
    assert!(!AuthContext::new(&no_office, 7, 99).is_in_same_bapas());
}
