//! Credentials, token claims and the authenticated principal.

use vstd::prelude::*;
use crate::types::UserRoleEnum;

verus! {

/// Sign-in request: the staff member's employee number and password.
#[derive(Clone, Debug)]
pub struct LoginRequest {
    pub nip_user: String,
    pub password: String,
}

/// Sign-in answer: the bearer token to present on later requests.
#[derive(Clone, Debug)]
pub struct LoginResponse {
    pub token: String,
}

/// What a bearer token carries: the account id, its role and units, and the expiry instant
/// in seconds since the Unix epoch.
#[derive(Clone, Copy, Debug, PartialEq, Eq, Structural)]
pub struct Claims {
    pub sub: i32,
    pub role: UserRoleEnum,
    pub bapas_id: Option<i32>,
    pub kanwil_id: Option<i32>,
    pub exp: usize,
}

/// The principal of one request: who is asking, in which role, attached to which local office
/// (`bapas_id`) and region (`kanwil_id`).
#[derive(Clone, Copy, Debug, PartialEq, Eq, Structural)]
pub struct AuthenticatedUser {
    pub id: i32,
    pub role: UserRoleEnum,
    pub bapas_id: Option<i32>,
    pub kanwil_id: Option<i32>,
}

/// The principal that a token's claims stand for.
pub open spec fn principal_of(c: Claims) -> AuthenticatedUser {
    AuthenticatedUser { id: c.sub, role: c.role, bapas_id: c.bapas_id, kanwil_id: c.kanwil_id }
}

impl AuthenticatedUser {
    /// The principal of a token whose signature and expiry were already checked.
    pub fn from_claims(claims: &Claims) -> (r: AuthenticatedUser)
        ensures
            r == principal_of(*claims),
    {
        AuthenticatedUser {
            id: claims.sub,
            role: claims.role,
            bapas_id: claims.bapas_id,
            kanwil_id: claims.kanwil_id,
        }
    }
}

/// The ids that one decision about a client needs: the caller's and the client's.
#[derive(Clone, Copy, Debug, PartialEq, Eq, Structural)]
pub struct AuthContext {
    pub user_id: i32,
    pub user_role: UserRoleEnum,
    pub user_bapas_id: Option<i32>,
    pub klien_bapas_id: i32,
    pub klien_pk_id: i32,
}

impl AuthContext {
    /// Pairs the caller's claims with the owning office and officer of a client.
    pub fn new(claims: &Claims, klien_bapas_id: i32, klien_pk_id: i32) -> (r: AuthContext)
        ensures
            r.user_id == claims.sub,
            r.user_role == claims.role,
            r.user_bapas_id == claims.bapas_id,
            r.klien_bapas_id == klien_bapas_id,
            r.klien_pk_id == klien_pk_id,
    {
        AuthContext {
            user_id: claims.sub,
            user_role: claims.role,
            user_bapas_id: claims.bapas_id,
            klien_bapas_id,
            klien_pk_id,
        }
    }

    /// Whether the caller is attached to the local office that owns the client.
    pub fn is_in_same_bapas(&self) -> (r: bool)
        ensures
            r == (self.user_bapas_id == Some(self.klien_bapas_id)),
    {
        match self.user_bapas_id {
            Some(b) => b == self.klien_bapas_id,
            None => false,
        }
    }
}

} // verus!
