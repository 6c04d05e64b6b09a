//! Session claims and their signed token form.
//!
//! Two claims variants exist: `UserClaims` for a staff principal and
//! `ReaderClaims` for a library reader. Each variant is signed into a
//! compact three-segment token and reconstructed from it; decoding into the
//! wrong variant fails, never coerces. Both directions go through
//! `jsonwebtoken`, behind trusted wrappers whose contracts name the token a
//! claims value produces under a secret and the claims a token yields back.

use vstd::prelude::*;

use crate::error::AuthError;
use crate::keys::Keys;

verus! {

/// Mathematical content of a staff principal's session claims.
pub struct UserClaimsV {
    pub id: Seq<char>,
    pub name: Seq<char>,
    pub permission: Seq<char>,
    pub exp: usize,
}

/// Session claims of a staff principal: identity fields plus the absolute
/// expiry instant in epoch seconds.
#[derive(Debug)]
pub struct UserClaims {
    pub id: String,
    pub name: String,
    pub permission: String,
    pub exp: usize,
}

impl View for UserClaims {
    type V = UserClaimsV;

    open spec fn view(&self) -> UserClaimsV {
        UserClaimsV { id: self.id@, name: self.name@, permission: self.permission@, exp: self.exp }
    }
}

/// Mathematical content of a reader's session claims.
pub struct ReaderClaimsV {
    pub id: Seq<char>,
    pub name: Seq<char>,
    pub library_card_id: Seq<char>,
    pub exp: usize,
}

/// Session claims of a library reader.
#[derive(Debug)]
pub struct ReaderClaims {
    pub id: String,
    pub name: String,
    pub library_card_id: String,
    pub exp: usize,
}

impl View for ReaderClaims {
    type V = ReaderClaimsV;

    open spec fn view(&self) -> ReaderClaimsV {
        ReaderClaimsV {
            id: self.id@,
            name: self.name@,
            library_card_id: self.library_card_id@,
            exp: self.exp,
        }
    }
}

/// The compact signed token `jsonwebtoken::encode` produces for a user
/// claims value under a secret. Encoding serializes fixed fields in a fixed
/// order and signs with HMAC-SHA256, so the result is a function of the
/// claims and the secret alone.
pub uninterp spec fn user_token_of(c: UserClaimsV, secret: Seq<u8>) -> Seq<char>;

/// The compact signed token `jsonwebtoken::encode` produces for a reader
/// claims value under a secret.
pub uninterp spec fn reader_token_of(c: ReaderClaimsV, secret: Seq<u8>) -> Seq<char>;

/// What decoding a token as user claims yields under a secret: the result of
/// `jsonwebtoken::decode` with the signature checked under the secret and the
/// expiry check left to the caller, read back as this variant's fields. With
/// the expiry check off, the result is a function of the token and the secret
/// alone; `Some` means the signature verified and the payload carried the
/// user fields.
pub uninterp spec fn user_claims_of(token: Seq<char>, secret: Seq<u8>) -> Option<UserClaimsV>;

/// What decoding a token as reader claims yields under a secret.
pub uninterp spec fn reader_claims_of(token: Seq<char>, secret: Seq<u8>) -> Option<ReaderClaimsV>;

#[verifier::external_type_specification]
#[verifier::external_body]
pub struct ExJwtError(jsonwebtoken::errors::Error);

/// Relies on `jsonwebtoken::encode` (HS256): the token is a deterministic
/// function of the serialized claims and the secret bytes, and the call
/// cannot fail on this path (the HMAC signer accepts any secret length and
/// signing a JSON object cannot fault). Decoding the token back under the
/// same secret gives the claims again, and never reader claims: the payload
/// carries `permission` and no `library_card_id`.
#[verifier::external_body]
fn encode_user(claims: &UserClaims, keys: &Keys) -> (r: Result<
    String,
    jsonwebtoken::errors::Error,
>)
    ensures
        r is Ok,
        r matches Ok(t) ==> t@ == user_token_of(claims@, keys@),
        r matches Ok(t) ==> user_claims_of(t@, keys@) == Some(claims@),
        r matches Ok(t) ==> reader_claims_of(t@, keys@) is None,
{
    let mut m = serde_json::Map::new();
    m.insert("id".to_string(), serde_json::Value::String(claims.id.clone()));
    m.insert("name".to_string(), serde_json::Value::String(claims.name.clone()));
    m.insert("permission".to_string(), serde_json::Value::String(claims.permission.clone()));
    m.insert("exp".to_string(), serde_json::Value::from(claims.exp as u64));
    jsonwebtoken::encode(
        &jsonwebtoken::Header::default(),
        &serde_json::Value::Object(m),
        &jsonwebtoken::EncodingKey::from_secret(keys.secret_bytes()),
    )
}

/// Relies on `jsonwebtoken::encode` (HS256), as `encode_user` does, for the
/// reader variant: the payload carries `library_card_id` and no
/// `permission`, so the token never decodes as user claims.
#[verifier::external_body]
fn encode_reader(claims: &ReaderClaims, keys: &Keys) -> (r: Result<
    String,
    jsonwebtoken::errors::Error,
>)
    ensures
        r is Ok,
        r matches Ok(t) ==> t@ == reader_token_of(claims@, keys@),
        r matches Ok(t) ==> reader_claims_of(t@, keys@) == Some(claims@),
        r matches Ok(t) ==> user_claims_of(t@, keys@) is None,
{
    let mut m = serde_json::Map::new();
    m.insert("id".to_string(), serde_json::Value::String(claims.id.clone()));
    m.insert("name".to_string(), serde_json::Value::String(claims.name.clone()));
    m.insert(
        "library_card_id".to_string(),
        serde_json::Value::String(claims.library_card_id.clone()),
    );
    m.insert("exp".to_string(), serde_json::Value::from(claims.exp as u64));
    jsonwebtoken::encode(
        &jsonwebtoken::Header::default(),
        &serde_json::Value::Object(m),
        &jsonwebtoken::EncodingKey::from_secret(keys.secret_bytes()),
    )
}

/// Relies on `jsonwebtoken::decode` (HS256). The expiry check is left to
/// the caller, so the call is a deterministic check of the token against
/// the secret — `user_claims_of` names exactly that result: `Some` when the
/// HMAC-SHA256 signature verifies under this secret and the payload carries
/// the user fields, `None` otherwise.
#[verifier::external_body]
pub(crate) fn decode_user(token: &str, keys: &Keys) -> (r: Option<UserClaims>)
    ensures
        r matches Some(c) ==> user_claims_of(token@, keys@) == Some(c@),
        r is None ==> user_claims_of(token@, keys@) is None,
{
    let mut validation = jsonwebtoken::Validation::new(jsonwebtoken::Algorithm::HS256);
    validation.validate_exp = false;
    validation.required_spec_claims.clear();
    let key = jsonwebtoken::DecodingKey::from_secret(keys.secret_bytes());
    let data = match jsonwebtoken::decode::<serde_json::Value>(token, &key, &validation) {
        Ok(d) => d,
        Err(_) => return None,
    };
    let v = data.claims;
    Some(UserClaims {
        id: v.get("id")?.as_str()?.to_string(),
        name: v.get("name")?.as_str()?.to_string(),
        permission: v.get("permission")?.as_str()?.to_string(),
        exp: v.get("exp")?.as_u64()? as usize,
    })
}

/// Relies on `jsonwebtoken::decode` (HS256), as `decode_user` does, for the
/// reader variant; `reader_claims_of` names exactly its result.
#[verifier::external_body]
pub(crate) fn decode_reader(token: &str, keys: &Keys) -> (r: Option<ReaderClaims>)
    ensures
        r matches Some(c) ==> reader_claims_of(token@, keys@) == Some(c@),
        r is None ==> reader_claims_of(token@, keys@) is None,
{
    let mut validation = jsonwebtoken::Validation::new(jsonwebtoken::Algorithm::HS256);
    validation.validate_exp = false;
    validation.required_spec_claims.clear();
    let key = jsonwebtoken::DecodingKey::from_secret(keys.secret_bytes());
    let data = match jsonwebtoken::decode::<serde_json::Value>(token, &key, &validation) {
        Ok(d) => d,
        Err(_) => return None,
    };
    let v = data.claims;
    Some(ReaderClaims {
        id: v.get("id")?.as_str()?.to_string(),
        name: v.get("name")?.as_str()?.to_string(),
        library_card_id: v.get("library_card_id")?.as_str()?.to_string(),
        exp: v.get("exp")?.as_u64()? as usize,
    })
}

impl UserClaims {
    /// Serialize and sign these claims into their compact token. The expiry
    /// is whatever the claims carry; the signer does not recompute it.
    /// Success is owed: the HS256 signing path cannot fault, so the
    /// `TokenCreation` error, kept for the signer's interface, never comes.
    /// The token decodes back to these claims under the same secret, and
    /// never as reader claims.
    pub fn sign(&self, keys: &Keys) -> (r: Result<String, AuthError>)
        ensures
            r is Ok,
            r matches Ok(t) ==> t@ == user_token_of(self@, keys@),
            r matches Ok(t) ==> user_claims_of(t@, keys@) == Some(self@),
            r matches Ok(t) ==> reader_claims_of(t@, keys@) is None,
    {
        match encode_user(self, keys) {
            Ok(t) => Ok(t),
            Err(_) => Err(AuthError::TokenCreation),
        }
    }
}

impl ReaderClaims {
    /// Serialize and sign these claims into their compact token, as
    /// `UserClaims::sign` does; the token decodes back to these claims and
    /// never as user claims.
    pub fn sign(&self, keys: &Keys) -> (r: Result<String, AuthError>)
        ensures
            r is Ok,
            r matches Ok(t) ==> t@ == reader_token_of(self@, keys@),
            r matches Ok(t) ==> reader_claims_of(t@, keys@) == Some(self@),
            r matches Ok(t) ==> user_claims_of(t@, keys@) is None,
    {
        match encode_reader(self, keys) {
            Ok(t) => Ok(t),
            Err(_) => Err(AuthError::TokenCreation),
        }
    }
}

} // verus!
