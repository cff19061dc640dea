//! Credential handling at the boundary with the external auth collaborator:
//! password hashing and verification are delegated to bcrypt, identifier
//! generation and validation to uuid; the decisions around them are
//! verified here.

use vstd::prelude::*;

use crate::errors::ChatError;

verus! {

/// What bcrypt's verification returns for a password against a stored hash
/// string: `Some(b)` for a clean outcome `b`, `None` for a verification
/// error (such as a malformed stored hash). The result depends on the two
/// strings alone.
pub uninterp spec fn bcrypt_verify_outcome(password: Seq<char>, hashed: Seq<char>) -> Option<
    bool,
>;

/// Relies on bcrypt::verify: a deterministic recomputation from the
/// password and the cost and salt carried in the hash string.
#[verifier::external_body]
fn verify_password_hash(password: &str, hashed: &str) -> (r: Option<bool>)
    ensures
        r == bcrypt_verify_outcome(password@, hashed@),
{
    match bcrypt::verify(password, hashed) {
        Ok(b) => Some(b),
        Err(_) => None,
    }
}

/// Relies on bcrypt::hash with DEFAULT_COST: a hash of the password under a
/// fresh random salt, so nothing more is promised of the string itself than
/// bcrypt's own guarantee that verifying the same password against it
/// succeeds.
#[verifier::external_body]
fn hash_password(password: &str) -> (r: Option<String>)
    ensures
        r is Some ==> bcrypt_verify_outcome(password@, r->0@) == Some(true),
{
    match bcrypt::hash(password, bcrypt::DEFAULT_COST) {
        Ok(h) => Some(h),
        Err(_) => None,
    }
}

/// Whether uuid::Uuid::parse_str accepts the string: a deterministic
/// validation of the characters alone.
pub uninterp spec fn uuid_parses(s: Seq<char>) -> bool;

/// Relies on uuid::Uuid::parse_str for identifier validation.
#[verifier::external_body]
fn uuid_parse_ok(s: &str) -> (r: bool)
    ensures
        r == uuid_parses(s@),
{
    uuid::Uuid::parse_str(s).is_ok()
}

/// Relies on uuid::Uuid::new_v4 and its hyphenated display form: a random
/// version-4 identifier rendered as 36 characters.
#[verifier::external_body]
fn new_user_id() -> (r: String)
    ensures
        r@.len() == 36,
{
    uuid::Uuid::new_v4().to_string()
}

/// A user row as stored in the remote store's user collection.
pub struct StoredUser {
    pub id: String,
    pub password_hash: String,
}

/// What the send path needs the store to persist for a new registration.
pub struct RegistrationData {
    pub user_id: String,
    pub password_hash: String,
}

/// The login decision over the fetched user row: unknown username and
/// rejected or unverifiable password are auth failures, a malformed stored
/// identifier is a parse failure; the credentials pass exactly when the
/// identifier is valid and bcrypt accepts the password.
pub fn login_check(user: Option<&StoredUser>, password: &str) -> (r: Result<(), ChatError>)
    ensures
        match user {
            Option::None => r is Err && r->Err_0 is AuthFailure,
            Option::Some(u) => {
                if !uuid_parses(u.id@) {
                    r is Err && r->Err_0 is ParseFailure
                } else {
                    match bcrypt_verify_outcome(password@, u.password_hash@) {
                        Option::Some(true) => r is Ok,
                        Option::Some(false) => r is Err && r->Err_0 is AuthFailure,
                        Option::None => r is Err && r->Err_0 is AuthFailure,
                    }
                }
            },
        },
{
    match user {
        Option::None => Err(ChatError::AuthFailure("User not found".to_owned())),
        Option::Some(u) => {
            if !uuid_parse_ok(u.id.as_str()) {
                return Err(ChatError::ParseFailure("Invalid user ID".to_owned()));
            }
            match verify_password_hash(password, u.password_hash.as_str()) {
                Option::Some(true) => Ok(()),
                Option::Some(false) => Err(ChatError::AuthFailure("Invalid password".to_owned())),
                Option::None => Err(
                    ChatError::AuthFailure("Password verification failed".to_owned()),
                ),
            }
        },
    }
}

/// The registration decision: an already-taken username is an auth failure;
/// otherwise a fresh identifier is drawn and the password hashed, and the
/// produced hash is one that bcrypt will accept the password against.
pub fn register_prepare(existing_users: usize, password: &str) -> (r: Result<
    RegistrationData,
    ChatError,
>)
    ensures
        existing_users > 0 ==> r is Err && r->Err_0 is AuthFailure,
        r is Ok ==> {
            &&& existing_users == 0
            &&& r->Ok_0.user_id@.len() == 36
            &&& bcrypt_verify_outcome(password@, r->Ok_0.password_hash@) == Some(true)
        },
        existing_users == 0 && r is Err ==> r->Err_0 is AuthFailure,
{
    if existing_users > 0 {
        return Err(ChatError::AuthFailure("Username already exists".to_owned()));
    }
    match hash_password(password) {
        Option::Some(password_hash) => Ok(
            RegistrationData { user_id: new_user_id(), password_hash },
        ),
        Option::None => Err(ChatError::AuthFailure("Password hashing failed".to_owned())),
    }
}

} // verus!
