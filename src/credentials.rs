//! Sign-in, PIN-checked self-service check-ins, password hashes and personal API keys.

use vstd::prelude::*;
use rand::{Rng, SeedableRng};
use vstd::string::*;
use crate::errors::{AccessError, StorageError};
use crate::model::{AuthenticatedUser, Claims};
use crate::org::{authorize_create_user, may_create_user, CreateUser, CreateUsers};
use crate::text::text_is;
use crate::types::UserRoleEnum;

verus! {

/// How long an issued token stays valid, in seconds.
pub const TOKEN_LIFETIME_SECS: usize = 86400;

/// Whether a password matches a bcrypt hash, or `None` where the hash cannot be read.
pub uninterp spec fn bcrypt_verdict(password: Seq<char>, hash: Seq<char>) -> Option<bool>;

/// The lowercase hexadecimal SHA-256 digest of the UTF-8 encoding of a text.
pub uninterp spec fn sha256_hex_of(text: Seq<char>) -> Seq<char>;

/// Relies on bcrypt::verify: hashes the password with the cost and salt read from `hash` and
/// compares; an unreadable hash is an error, turned into `None` here.
#[verifier::external_body]
fn bcrypt_verify(password: &str, hash: &str) -> (r: Option<bool>)
    ensures
        r == bcrypt_verdict(password@, hash@),
{
    bcrypt::verify(password, hash).ok()
}

/// Relies on bcrypt::hash at bcrypt::DEFAULT_COST: a fresh random salt each call, formatted as
/// `$2b$12$` followed by 53 characters of salt and hash. bcrypt::verify re-derives the hash from
/// the same cost, salt and truncated password, so the password matches its hash. It fails only
/// where the system gives no randomness.
#[verifier::external_body]
fn bcrypt_hash(password: &str) -> (r: Option<String>)
    ensures
        r matches Some(h) ==> h@.len() == 60,
        r matches Some(h) ==> bcrypt_verdict(password@, h@) == Some(true),
{
    bcrypt::hash(password, bcrypt::DEFAULT_COST).ok()
}

/// Relies on sha256::digest for a `&str`: the hex encoding of the digest, 64 characters.
#[verifier::external_body]
fn sha256_hex(text: &str) -> (r: String)
    ensures
        r@ == sha256_hex_of(text@),
        r@.len() == 64,
{
    sha256::digest(text)
}

/// Relies on rand's StdRng seeded by SeedableRng::from_rng from OsRng, which fails (here `None`)
/// where the operating system gives no randomness, then sampled with
/// rand::distributions::Alphanumeric: `n` characters drawn from A-Z, a-z and 0-9.
#[verifier::external_body]
fn random_alphanumeric(n: usize) -> (r: Option<String>)
    ensures
        r matches Some(t) ==> t@.len() == n,
        r matches Some(t) ==> forall|i: int| 0 <= i < n ==> is_alphanumeric(#[trigger] t@[i]),
{
    let rng = rand::rngs::StdRng::from_rng(rand::rngs::OsRng).ok()?;
    Some(rng.sample_iter(&rand::distributions::Alphanumeric).take(n).map(char::from).collect())
}

pub open spec fn is_alphanumeric(c: char) -> bool {
    ('A' <= c <= 'Z') || ('a' <= c <= 'z') || ('0' <= c <= '9')
}

/// A staff account as the sign-in lookup finds it.
#[derive(Clone, Debug)]
pub struct LoginCandidate {
    pub id: i32,
    pub role: UserRoleEnum,
    pub bapas_id: Option<i32>,
    pub kanwil_id: Option<i32>,
    pub password_hash: String,
    pub active: bool,
    pub deleted: bool,
}

/// The claims issued to a candidate at `now`, valid for one day.
pub open spec fn claims_for(c: LoginCandidate, now: usize) -> Claims {
    Claims {
        sub: c.id,
        role: c.role,
        bapas_id: c.bapas_id,
        kanwil_id: c.kanwil_id,
        exp: (now + TOKEN_LIFETIME_SECS) as usize,
    }
}

/// Claims for a candidate whose password check gave `verdict`.
pub open spec fn claims_outcome(c: LoginCandidate, verdict: Option<bool>, now: usize) -> Result<Claims, AccessError> {
    match verdict {
        None => Err(AccessError::Internal),
        Some(false) => Err(AccessError::Unauthorized),
        Some(true) => Ok(claims_for(c, now)),
    }
}

/// Sign-in: an unknown, deactivated or deleted account and a wrong password are all
/// unauthorized, alike.
pub open spec fn login_outcome(
    lookup: Result<Option<LoginCandidate>, StorageError>,
    password: Seq<char>,
    now: usize,
) -> Result<Claims, AccessError> {
    match lookup {
        Err(_) => Err(AccessError::Internal),
        Ok(None) => Err(AccessError::Unauthorized),
        Ok(Some(c)) => if !c.active || c.deleted {
            Err(AccessError::Unauthorized)
        } else {
            claims_outcome(c, bcrypt_verdict(password, c.password_hash@), now)
        },
    }
}

/// Issues the claims of a candidate from the outcome of its password check.
pub fn issue_claims(candidate: &LoginCandidate, verdict: Option<bool>, now: usize) -> (r: Result<Claims, AccessError>)
    requires
        now + TOKEN_LIFETIME_SECS <= usize::MAX,
    ensures
        r == claims_outcome(*candidate, verdict, now),
{
    match verdict {
        None => Err(AccessError::Internal),
        Some(false) => Err(AccessError::Unauthorized),
        Some(true) => Ok(Claims {
            sub: candidate.id,
            role: candidate.role,
            bapas_id: candidate.bapas_id,
            kanwil_id: candidate.kanwil_id,
            exp: now + TOKEN_LIFETIME_SECS,
        }),
    }
}

/// Checks a sign-in against the account that the lookup found, at `now` seconds since the
/// Unix epoch.
pub fn authenticate(
    lookup: Result<Option<LoginCandidate>, StorageError>,
    password: &str,
    now: usize,
) -> (r: Result<Claims, AccessError>)
    requires
        now + TOKEN_LIFETIME_SECS <= usize::MAX,
    ensures
        r == login_outcome(lookup, password@, now),
{
    match lookup {
        Err(_) => Err(AccessError::Internal),
        Ok(None) => Err(AccessError::Unauthorized),
        Ok(Some(c)) => {
            if !c.active || c.deleted {
                Err(AccessError::Unauthorized)
            } else {
                let verdict = bcrypt_verify(password, c.password_hash.as_str());
                issue_claims(&c, verdict, now)
            }
        },
    }
}

/// What a self-service check-in needs of the client: whether online access is granted and
/// the hash of the client's PIN, if one was set.
#[derive(Clone, Debug)]
pub struct SelfReportRow {
    pub online_akses_klien: bool,
    pub pin_klien_hash: Option<String>,
}

/// A self-service check-in for a client row, given whether a PIN came with it and whether it
/// matched.
pub open spec fn self_report_decision(row: SelfReportRow, pin_given: bool, matched: bool) -> Result<(), AccessError> {
    if !row.online_akses_klien || row.pin_klien_hash is None {
        Err(AccessError::Forbidden)
    } else if !pin_given || !matched {
        Err(AccessError::Unauthorized)
    } else {
        Ok(())
    }
}

/// A self-service check-in: the client must exist, have online access and a PIN, and the
/// PIN given must match it. An unreadable PIN hash counts as a mismatch.
pub open spec fn self_report_outcome(
    lookup: Result<Option<SelfReportRow>, StorageError>,
    pin: Option<String>,
) -> Result<(), AccessError> {
    match lookup {
        Err(_) => Err(AccessError::Internal),
        Ok(None) => Err(AccessError::NotFound),
        Ok(Some(row)) => {
            let matched = match (pin, row.pin_klien_hash) {
                (Some(p), Some(h)) => bcrypt_verdict(p@, h@) == Some(true),
                _ => false,
            };
            self_report_decision(row, pin is Some, matched)
        },
    }
}

/// Decides a self-service check-in from the outcome of the PIN check.
pub fn decide_self_report(row: &SelfReportRow, pin_given: bool, matched: bool) -> (r: Result<(), AccessError>)
    ensures
        r == self_report_decision(*row, pin_given, matched),
{
    if !row.online_akses_klien {
        Err(AccessError::Forbidden)
    } else if row.pin_klien_hash.is_none() {
        Err(AccessError::Forbidden)
    } else if !pin_given || !matched {
        Err(AccessError::Unauthorized)
    } else {
        Ok(())
    }
}

/// Checks a self-service check-in against the client row that the lookup found.
pub fn authorize_self_report(
    lookup: Result<Option<SelfReportRow>, StorageError>,
    pin: Option<String>,
) -> (r: Result<(), AccessError>)
    ensures
        r == self_report_outcome(lookup, pin),
{
    match lookup {
        Err(_) => Err(AccessError::Internal),
        Ok(None) => Err(AccessError::NotFound),
        Ok(Some(row)) => {
            let pin_given = pin.is_some();
            let matched = match (&pin, &row.pin_klien_hash) {
                (Some(p), Some(h)) => {
                    let v = bcrypt_verify(p.as_str(), h.as_str());
                    match v {
                        Some(true) => true,
                        _ => false,
                    }
                },
                _ => false,
            };
            decide_self_report(&row, pin_given, matched)
        },
    }
}

/// The password hash to store after an update: the current one when no new password is
/// given, else a fresh bcrypt hash of the new one.
pub fn password_hash_for_update(new_password: Option<String>, current_hash: String) -> (r: Result<String, AccessError>)
    ensures
        new_password is None ==> r == Ok::<String, AccessError>(current_hash),
        new_password is Some ==> (r matches Ok(h) ==> h@.len() == 60),
        new_password matches Some(p) ==> (r matches Ok(h) ==> bcrypt_verdict(p@, h@) == Some(true)),
        r matches Err(e) ==> e == AccessError::Internal,
{
    match new_password {
        None => Ok(current_hash),
        Some(p) => match bcrypt_hash(p.as_str()) {
            Some(h) => Ok(h),
            None => Err(AccessError::Internal),
        },
    }
}

/// Checks that the principal may create the account, then hashes its password for storage.
pub fn prepare_new_user(user: &AuthenticatedUser, payload: CreateUser) -> (r: Result<CreateUsers, AccessError>)
    ensures
        !may_create_user(*user, payload.bapas_id) ==> r == Err::<CreateUsers, AccessError>(AccessError::Forbidden),
        r matches Err(e) ==> (e == AccessError::Forbidden || e == AccessError::Internal),
        may_create_user(*user, payload.bapas_id) ==> (r matches Err(e) ==> e == AccessError::Internal),
        r matches Ok(u) ==> bcrypt_verdict(payload.password@, u.password_hash@) == Some(true),
        r matches Ok(u) ==> {
            &&& may_create_user(*user, payload.bapas_id)
            &&& u.nip_user == payload.nip_user
            &&& u.nama_user == payload.nama_user
            &&& u.gelar_depan_user == payload.gelar_depan_user
            &&& u.gelar_belakang_user == payload.gelar_belakang_user
            &&& u.pangkat_golongan_user == payload.pangkat_golongan_user
            &&& u.jabatan_user == payload.jabatan_user
            &&& u.bapas_id == payload.bapas_id
            &&& u.kanwil_id == payload.kanwil_id
            &&& u.status_kepegawaian_user == payload.status_kepegawaian_user
            &&& u.email_user == payload.email_user
            &&& u.nomor_telepon_user == payload.nomor_telepon_user
            &&& u.status_aktif_user == payload.status_aktif_user
            &&& u.role_user == Some(payload.role_user)
            &&& u.password_hash@.len() == 60
        },
{
    match authorize_create_user(user, payload.bapas_id) {
        Err(e) => Err(e),
        Ok(()) => match bcrypt_hash(payload.password.as_str()) {
            None => Err(AccessError::Internal),
            Some(h) => Ok(CreateUsers {
                nip_user: payload.nip_user,
                nama_user: payload.nama_user,
                gelar_depan_user: payload.gelar_depan_user,
                gelar_belakang_user: payload.gelar_belakang_user,
                pangkat_golongan_user: payload.pangkat_golongan_user,
                jabatan_user: payload.jabatan_user,
                bapas_id: payload.bapas_id,
                kanwil_id: payload.kanwil_id,
                status_kepegawaian_user: payload.status_kepegawaian_user,
                email_user: payload.email_user,
                nomor_telepon_user: payload.nomor_telepon_user,
                status_aktif_user: payload.status_aktif_user,
                role_user: Some(payload.role_user),
                password_hash: h,
            }),
        },
    }
}

/// The token of an `Authorization` header value of the form `Bearer <token>`.
pub open spec fn bearer_of(h: Seq<char>) -> Option<Seq<char>> {
    if h.len() >= 7 && h.subrange(0, 7) == "Bearer "@ {
        Some(h.subrange(7, h.len() as int))
    } else {
        None
    }
}

/// Extracts the bearer token from an `Authorization` header value.
pub fn bearer_token(header: &str) -> (r: Option<String>)
    ensures
        r is Some <==> bearer_of(header@) is Some,
        r matches Some(t) ==> bearer_of(header@) == Some(t@),
{
    proof {
        reveal_strlit("Bearer ");
    }
    let n = header.unicode_len();
    if n < 7 {
        return None;
    }
    let head = header.substring_char(0, 7);
    if text_is(head, "Bearer ") {
        Some(String::from_str(header.substring_char(7, n)))
    } else {
        None
    }
}

/// Whether the caller's account holds an API key.
#[derive(Clone, Copy, Debug, PartialEq, Eq, Structural)]
pub struct ApiKeyStatus {
    pub has_key: bool,
}

/// A freshly issued API key, shown to its owner once.
#[derive(Clone, Debug)]
pub struct NewApiKey {
    pub api_key: String,
}

/// The key issued for a random part, and the digest of it that storage keeps.
pub fn api_key_from(random_part: &str) -> (r: (NewApiKey, String))
    ensures
        r.0.api_key@ == "ak_"@ + random_part@,
        r.1@ == sha256_hex_of(r.0.api_key@),
{
    let mut key = String::from_str("ak_");
    key.append(random_part);
    let digest = sha256_hex(key.as_str());
    (NewApiKey { api_key: key }, digest)
}

/// Issues a new API key: `ak_` followed by 32 random alphanumeric characters, with the
/// digest to store in place of the key. Without randomness from the system it fails as internal.
pub fn generate_api_key() -> (r: Result<(NewApiKey, String), AccessError>)
    ensures
        r matches Err(e) ==> e == AccessError::Internal,
        r matches Ok(k) ==> {
            &&& k.0.api_key@.subrange(0, 3) == "ak_"@
            &&& k.0.api_key@.len() == 35
            &&& forall|i: int| 3 <= i < 35 ==> is_alphanumeric(#[trigger] k.0.api_key@[i])
            &&& k.1@ == sha256_hex_of(k.0.api_key@)
        },
{
    let random_part = match random_alphanumeric(32) {
        Some(t) => t,
        None => return Err(AccessError::Internal),
    };
    let r = api_key_from(random_part.as_str());
    proof {
        reveal_strlit("ak_");
        assert(r.0.api_key@.subrange(0, 3) =~= "ak_"@);
        assert forall|i: int| 3 <= i < 35 implies is_alphanumeric(#[trigger] r.0.api_key@[i]) by {
            assert(r.0.api_key@[i] == random_part@[i - 3]);
        }
    }
    Ok(r)
}

} // verus!
