//! Registration and login.
//!
//! The storage of users is an external collaborator: a handler looks a
//! username up, hands what it found to the functions here, and they decide —
//! refuse a taken username, refuse a missing user, hash the credential,
//! build the row to insert, and issue the session token for the principal
//! that results.

use vstd::prelude::*;

use crate::claims::{
    user_claims_of, user_token_of, ReaderClaims, ReaderClaimsV, UserClaims, UserClaimsV,
};
use crate::error::{AppError, AuthError};
use crate::keys::Keys;
use crate::password::{bcrypt_verifies, hash_password, verify_password};
use crate::SESSION_TTL_SECS;

verus! {

/// A stored user row, as the decisions here read it.
#[derive(Clone, Debug)]
pub struct UserRecord {
    pub id: String,
    pub name: String,
    pub password: String,
    pub permission: String,
    pub user_type_id: String,
}

/// A stored reader row, as the decisions here read it.
#[derive(Clone, Debug)]
pub struct ReaderRecord {
    pub id: String,
    pub name: String,
    pub library_card_id: String,
}

/// Body of a login request.
#[derive(Debug)]
pub struct UserLoginPayload {
    pub username: String,
    pub password: String,
}

/// Body of a registration request.
#[derive(Debug)]
pub struct UserRegisterPayload {
    pub username: String,
    pub password: String,
}

/// Body of a successful registration or login response.
#[derive(Debug)]
pub struct AuthBody {
    pub access_token: String,
    pub token_type: String,
}

impl AuthBody {
    /// Wrap an issued token; the scheme is always the bearer scheme.
    pub fn new(access_token: String) -> (r: AuthBody)
        ensures
            r.access_token == access_token,
            r.token_type@ == "Bearer"@,
    {
        AuthBody { access_token, token_type: String::from_str("Bearer") }
    }
}

/// The row the register path asks the store to insert once the username is
/// free: the name, the hashed credential, the fixed full permission, and the
/// privileged type the bootstrap established.
#[derive(Debug)]
pub struct NewUser {
    pub name: String,
    pub password: String,
    pub permission: String,
    pub user_type_id: String,
}

/// The claims a user record is issued at `now`: its identity fields, with
/// the expiry at issuance time plus the session TTL.
pub open spec fn user_claims_at(user: UserRecord, now: usize) -> UserClaimsV {
    UserClaimsV {
        id: user.id@,
        name: user.name@,
        permission: user.permission@,
        exp: (now + SESSION_TTL_SECS) as usize,
    }
}

/// The claims a reader record is issued at `now`.
pub open spec fn reader_claims_at(reader: ReaderRecord, now: usize) -> ReaderClaimsV {
    ReaderClaimsV {
        id: reader.id@,
        name: reader.name@,
        library_card_id: reader.library_card_id@,
        exp: (now + SESSION_TTL_SECS) as usize,
    }
}

impl UserClaims {
    /// Claims for an authenticated user record, expiring one session TTL
    /// after `now`.
    pub fn from_user(user: &UserRecord, now: usize) -> (r: UserClaims)
        requires
            now + SESSION_TTL_SECS <= usize::MAX,
        ensures
            r@ == user_claims_at(*user, now),
    {
        UserClaims {
            id: user.id.clone(),
            name: user.name.clone(),
            permission: user.permission.clone(),
            exp: now + SESSION_TTL_SECS,
        }
    }
}

impl ReaderClaims {
    /// Claims for an authenticated reader record, expiring one session TTL
    /// after `now`.
    pub fn from_reader(reader: &ReaderRecord, now: usize) -> (r: ReaderClaims)
        requires
            now + SESSION_TTL_SECS <= usize::MAX,
        ensures
            r@ == reader_claims_at(*reader, now),
    {
        ReaderClaims {
            id: reader.id.clone(),
            name: reader.name.clone(),
            library_card_id: reader.library_card_id.clone(),
            exp: now + SESSION_TTL_SECS,
        }
    }
}

/// What the register conflict response says about a taken name.
pub open spec fn conflict_detail(name: Seq<char>) -> Seq<char> {
    "User with name `"@ + name + "` already exists"@
}

/// What the login not-found response says about a missing name.
pub open spec fn not_found_detail(name: Seq<char>) -> Seq<char> {
    "User with name `"@ + name + "`, not exists"@
}

/// The record a lookup found, without the borrow.
pub open spec fn found_record(existing: Option<&UserRecord>) -> Option<UserRecord> {
    match existing {
        Some(u) => Some(*u),
        None => None,
    }
}

/// Does a registration conflict, from what the username lookup found?
pub open spec fn register_conflicts(existing: Option<UserRecord>) -> bool {
    existing is Some
}

/// What the lookup for `name` finds in a store of users keyed by name.
pub open spec fn store_lookup(store: Map<Seq<char>, UserRecord>, name: Seq<char>) -> Option<
    UserRecord,
> {
    if store.dom().contains(name) {
        Some(store[name])
    } else {
        None
    }
}

/// The conflict error for a taken username.
fn conflict_error(username: &String) -> (r: AppError)
    ensures
        r.status_code == 409,
        r.code@ == "username_conflict"@,
        r.detail@ == conflict_detail(username@),
{
    let mut d = String::from_str("User with name `");
    d.append(username.as_str());
    d.append("` already exists");
    AppError::new(409, "username_conflict", d)
}

/// Decide a registration from what the username lookup found, with the
/// credential already hashed: refuse a taken username with the conflict
/// error, otherwise give the row to insert — a user of the privileged type
/// with the fixed full permission.
pub fn register_with_hash(
    existing: Option<&UserRecord>,
    username: String,
    password_hash: String,
    admin_type_id: &str,
) -> (r: Result<NewUser, AppError>)
    ensures
        r is Err <==> register_conflicts(found_record(existing)),
        r matches Err(e) ==> e.status_code == 409 && e.code@ == "username_conflict"@ && e.detail@
            == conflict_detail(username@),
        r matches Ok(nu) ==> nu.name@ == username@ && nu.password@ == password_hash@
            && nu.permission@ == "all"@ && nu.user_type_id@ == admin_type_id@,
{
    match existing {
        Some(_) => Err(conflict_error(&username)),
        None => Ok(
            NewUser {
                name: username,
                password: password_hash,
                permission: String::from_str("all"),
                user_type_id: String::from_str(admin_type_id),
            },
        ),
    }
}

/// Handle a registration request from what the username lookup found: hash
/// the credential and decide. A taken username is refused with the conflict
/// error; a hashing fault surfaces as the internal unclassified error; the
/// caller inserts the row that comes back and finishes with
/// `user_register_finish`.
pub fn user_register(
    existing: Option<&UserRecord>,
    payload: UserRegisterPayload,
    admin_type_id: &str,
) -> (r: Result<NewUser, AppError>)
    ensures
        register_conflicts(found_record(existing)) ==> (r matches Err(e) && e.status_code == 409
            && e.code@ == "username_conflict"@ && e.detail@ == conflict_detail(payload.username@)),
        r matches Ok(nu) ==> !register_conflicts(found_record(existing)) && nu.name@
            == payload.username@ && bcrypt_verifies(payload.password@, nu.password@)
            && nu.permission@ == "all"@ && nu.user_type_id@ == admin_type_id@,
        existing is None ==> (r matches Err(e) ==> e.status_code == 500 && e.code@
            == "unknown_error"@),
{
    if let Some(u) = existing {
        let _ = u;
        return Err(conflict_error(&payload.username));
    }
    let hashed = match hash_password(payload.password.as_str()) {
        Some(h) => h,
        None => {
            return Err(AppError::unknown(String::from_str("Password hashing failed")));
        },
    };
    register_with_hash(existing, payload.username, hashed, admin_type_id)
}

/// Finish a registration once the store inserted the row: issue the freshly
/// created user's session token, wrapped as a bearer response body. Success
/// is owed — the signing path cannot fault — and the token decodes back to
/// the new user's claims.
pub fn user_register_finish(user: &UserRecord, keys: &Keys, now: usize) -> (r: Result<
    AuthBody,
    AppError,
>)
    requires
        now + SESSION_TTL_SECS <= usize::MAX,
    ensures
        r is Ok,
        r matches Ok(b) ==> b.access_token@ == user_token_of(user_claims_at(*user, now), keys@)
            && user_claims_of(b.access_token@, keys@) == Some(user_claims_at(*user, now))
            && b.token_type@ == "Bearer"@,
{
    let claims = UserClaims::from_user(user, now);
    match claims.sign(keys) {
        Ok(t) => Ok(AuthBody::new(t)),
        Err(e) => Err(AppError::from_auth(e)),
    }
}

/// Handle a login request from what the username lookup found: a missing
/// user is refused as not-found; a found user's credential is checked
/// against the stored hash, a wrong one is refused, and a right one is owed
/// a fresh session token whose claims carry the record's identity fields
/// and whose decoding gives them back.
pub fn user_login(
    db_user: Option<UserRecord>,
    payload: UserLoginPayload,
    keys: &Keys,
    now: usize,
) -> (r: Result<AuthBody, AppError>)
    requires
        now + SESSION_TTL_SECS <= usize::MAX,
    ensures
        db_user is None ==> (r matches Err(e) && e.status_code == 404 && e.code@
            == "user_not_exists"@ && e.detail@ == not_found_detail(payload.username@)),
        db_user matches Some(u) ==> (r is Ok <==> bcrypt_verifies(
            payload.password@,
            u.password@,
        )),
        db_user matches Some(u) ==> (r matches Ok(b) ==> b.access_token@ == user_token_of(
            user_claims_at(u, now),
            keys@,
        ) && user_claims_of(b.access_token@, keys@) == Some(user_claims_at(u, now))
            && b.token_type@ == "Bearer"@),
        db_user is Some ==> (r matches Err(e) ==> e.status_code == 401 && e.code@
            == "wrong_credentials"@ && e.detail@ == AuthError::WrongCredentials.spec_message()),
{
    let user = match db_user {
        None => {
            let mut d = String::from_str("User with name `");
            d.append(payload.username.as_str());
            d.append("`, not exists");
            return Err(AppError::new(404, "user_not_exists", d));
        },
        Some(u) => u,
    };
    if !verify_password(payload.password.as_str(), user.password.as_str()) {
        return Err(AppError::new(401, "wrong_credentials", AuthError::WrongCredentials.message()));
    }
    let claims = UserClaims::from_user(&user, now);
    match claims.sign(keys) {
        Ok(t) => Ok(AuthBody::new(t)),
        Err(e) => Err(AppError::from_auth(e)),
    }
}

/// Registration uniqueness: against a store that does not hold the name
/// yet, the attempt whose lookup runs first proceeds, and an attempt whose
/// lookup sees the first one's insert is refused as a conflict; the insert
/// adds exactly that one name to the store.
pub proof fn lemma_registration_unique(
    store: Map<Seq<char>, UserRecord>,
    name: Seq<char>,
    created: UserRecord,
)
    requires
        !store.dom().contains(name),
    ensures
        !register_conflicts(store_lookup(store, name)),
        register_conflicts(store_lookup(store.insert(name, created), name)),
        store.insert(name, created).dom() =~= store.dom().insert(name),
{
}

} // verus!
