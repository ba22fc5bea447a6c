//! The permission engine: a pure decision from a principal, the ownership tuple of a resource
//! and the access variant that the operation asks for.

use vstd::prelude::*;
use crate::model::AuthenticatedUser;
use crate::types::UserRoleEnum;

verus! {

/// The minimal ownership of a resource: the officer it is assigned to (`pk_id`), the local
/// office that owns it (`bapas_id`) and the region (`kanwil_id`). An absent id never matches.
#[derive(Clone, Copy, Debug, Default, PartialEq, Eq, Structural)]
pub struct ResourceOwnership {
    pub pk_id: Option<i32>,
    pub bapas_id: Option<i32>,
    pub kanwil_id: Option<i32>,
}

/// The three policies that operations apply to the same ownership tuple.
#[derive(Clone, Copy, Debug, PartialEq, Eq, Structural)]
pub enum AccessVariant {
    /// Reading, updating or deleting a client or an organizational unit: an officer reaches
    /// only the clients personally assigned to them.
    Standard,
    /// Check-ins recorded by staff: an officer reaches every client of their local office.
    OfficerBroadened,
    /// Deleting a check-in record: officers never may.
    DeleteRestricted,
}

/// Both ids are present and equal.
pub open spec fn same_unit(a: Option<i32>, b: Option<i32>) -> bool {
    a is Some && b is Some && a == b
}

/// Standard ownership: the rule that every role above officer applies under every variant.
pub open spec fn standard_access(user: AuthenticatedUser, res: ResourceOwnership) -> bool {
    match user.role {
        UserRoleEnum::SuperAdmin => true,
        UserRoleEnum::AdminKanwil => same_unit(user.kanwil_id, res.kanwil_id),
        UserRoleEnum::AdminBapas => same_unit(user.bapas_id, res.bapas_id),
        UserRoleEnum::Pegawai => res.pk_id == Some(user.id),
    }
}

/// The decision of the permission engine.
pub open spec fn authorized(
    user: AuthenticatedUser,
    res: ResourceOwnership,
    variant: AccessVariant,
) -> bool {
    match user.role {
        UserRoleEnum::Pegawai => match variant {
            AccessVariant::Standard => res.pk_id == Some(user.id),
            AccessVariant::OfficerBroadened => same_unit(user.bapas_id, res.bapas_id),
            AccessVariant::DeleteRestricted => false,
        },
        _ => standard_access(user, res),
    }
}

/// Whether a comparison that the decision for this role and variant rests on lacks an id on
/// either side. A super admin's decision rests on none.
pub open spec fn relevant_id_absent(
    user: AuthenticatedUser,
    res: ResourceOwnership,
    variant: AccessVariant,
) -> bool {
    match user.role {
        UserRoleEnum::SuperAdmin => false,
        UserRoleEnum::AdminKanwil => user.kanwil_id is None || res.kanwil_id is None,
        UserRoleEnum::AdminBapas => user.bapas_id is None || res.bapas_id is None,
        UserRoleEnum::Pegawai => match variant {
            AccessVariant::OfficerBroadened => user.bapas_id is None || res.bapas_id is None,
            _ => res.pk_id is None,
        },
    }
}

/// Whether both ids are present and equal.
pub fn same_unit_exec(a: Option<i32>, b: Option<i32>) -> (r: bool)
    ensures
        r == same_unit(a, b),
{
    match (a, b) {
        (Some(x), Some(y)) => x == y,
        _ => false,
    }
}

/// Standard ownership check: a super admin may access anything, a regional admin what their
/// region owns, a local-office admin what their office owns, an officer what is assigned to them.
pub fn check_permission(user: &AuthenticatedUser, resource: &ResourceOwnership) -> (r: bool)
    ensures
        r == standard_access(*user, *resource),
        r == authorized(*user, *resource, AccessVariant::Standard),
{
    match user.role {
        UserRoleEnum::SuperAdmin => true,
        UserRoleEnum::AdminKanwil => same_unit_exec(user.kanwil_id, resource.kanwil_id),
        UserRoleEnum::AdminBapas => same_unit_exec(user.bapas_id, resource.bapas_id),
        UserRoleEnum::Pegawai => match resource.pk_id {
            Some(pk) => pk == user.id,
            None => false,
        },
    }
}

/// The permission engine. Its answer depends on its three inputs alone, so two calls with the
/// same inputs agree.
pub fn is_authorized(
    user: &AuthenticatedUser,
    resource: &ResourceOwnership,
    variant: AccessVariant,
) -> (r: bool)
    ensures
        r == authorized(*user, *resource, variant),
        user.role == UserRoleEnum::Pegawai && variant == AccessVariant::DeleteRestricted ==> !r,
        user.role != UserRoleEnum::Pegawai ==> r == standard_access(*user, *resource),
{
    match user.role {
        UserRoleEnum::Pegawai => match variant {
            AccessVariant::Standard => check_permission(user, resource),
            AccessVariant::OfficerBroadened => same_unit_exec(user.bapas_id, resource.bapas_id),
            AccessVariant::DeleteRestricted => false,
        },
        _ => check_permission(user, resource),
    }
}

/// Fail closed: when a comparison that the decision rests on lacks an id on either side,
/// every variant denies.
pub proof fn lemma_fail_closed(
    user: AuthenticatedUser,
    res: ResourceOwnership,
    variant: AccessVariant,
)
    requires
        relevant_id_absent(user, res, variant),
    ensures
        !authorized(user, res, variant),
{
}

/// Monotonic scope: when the principal's office and region are present and equal to the
/// resource's, a role authorized for a variant stays authorized under every role above it.
pub proof fn lemma_monotonic_scope(
    user: AuthenticatedUser,
    res: ResourceOwnership,
    variant: AccessVariant,
    higher: UserRoleEnum,
)
    requires
        same_unit(user.bapas_id, res.bapas_id),
        same_unit(user.kanwil_id, res.kanwil_id),
        user.role.rank() <= higher.rank(),
        authorized(user, res, variant),
    ensures
        authorized(AuthenticatedUser { role: higher, ..user }, res, variant),
{
}

/// The variants diverge: an officer of the owning office who is not assigned the client is
/// denied under standard ownership and allowed under the officer-broadened variant; an officer
/// assigned the client is allowed under standard ownership and denied under the
/// delete-restricted one.
pub proof fn lemma_variants_diverge()
    ensures
        exists|user: AuthenticatedUser, res: ResourceOwnership|
            #![trigger authorized(user, res, AccessVariant::OfficerBroadened)]
            user.role == UserRoleEnum::Pegawai
                && !authorized(user, res, AccessVariant::Standard)
                && authorized(user, res, AccessVariant::OfficerBroadened),
        exists|user: AuthenticatedUser, res: ResourceOwnership|
            #![trigger authorized(user, res, AccessVariant::DeleteRestricted)]
            user.role == UserRoleEnum::Pegawai
                && authorized(user, res, AccessVariant::Standard)
                && !authorized(user, res, AccessVariant::DeleteRestricted),
{
    let officer = AuthenticatedUser {
        id: 42,
        role: UserRoleEnum::Pegawai,
        bapas_id: Some(7),
        kanwil_id: None,
    };
    let colleague_client = ResourceOwnership { pk_id: Some(999), bapas_id: Some(7), kanwil_id: None };
    let own_client = ResourceOwnership { pk_id: Some(42), bapas_id: Some(7), kanwil_id: None };
    assert(!authorized(officer, colleague_client, AccessVariant::Standard));
    assert(authorized(officer, colleague_client, AccessVariant::OfficerBroadened));
    assert(authorized(officer, own_client, AccessVariant::Standard));
    assert(!authorized(officer, own_client, AccessVariant::DeleteRestricted));
}

} // verus!
