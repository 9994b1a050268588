//! Passwords: hashing with Argon2 and checking a password against its hash,
//! and the rules for logging in and registering built on them.
use vstd::prelude::*;

use crate::database_handler_mongodb::StoredCredentials;
use crate::text::{concat2, fails_with};

verus! {

/// A user name with a password in clear.
#[derive(Debug)]
pub struct UserCredentials {
    pub username: String,
    pub password: String,
}

/// A user name with the hash of its password.
#[derive(Debug)]
pub struct UserCredentialsHashed {
    pub username: String,
    pub password_hash: String,
}

/// What checking a password against a hash gives: `None` when the hash is
/// not a PHC string, else whether the password matches (with Argon2's
/// error text when it does not).
pub type PasswordCheck = Option<Result<(), String>>;

/// What Argon2 (with its default parameters) makes of checking `password`
/// against the PHC string `hash`: `None` when the string cannot be parsed,
/// `Some(Ok(()))` when the password matches, else `Some(Err(text))`.
pub uninterp spec fn spec_argon2_check(hash: Seq<char>, password: Seq<char>) -> Option<Result<(), Seq<char>>>;

/// Calls `argon2::PasswordHash::new(hash)` and, where that succeeds,
/// `Argon2::default().verify_password(password, ..)`: a function of the
/// hash and the password, named `spec_argon2_check`.
#[verifier::external_body]
fn argon2_check(hash: &str, password: &str) -> (r: PasswordCheck)
    ensures
        r is None <==> spec_argon2_check(hash@, password@) is None,
        r matches Some(Ok(_)) <==> spec_argon2_check(hash@, password@) matches Some(Ok(_)),
        r matches Some(Err(e)) ==> (spec_argon2_check(hash@, password@) matches Some(Err(m)) && m == e@),
{
    match argon2::PasswordHash::new(hash) {
        Err(_) => None,
        Ok(parsed) => match argon2::PasswordVerifier::verify_password(
            &argon2::Argon2::default(),
            password.as_bytes(),
            &parsed,
        ) {
            Ok(()) => Some(Ok(())),
            Err(e) => Some(Err(e.to_string())),
        },
    }
}

/// Whether a text is short enough for Argon2 to hash: Argon2 takes
/// passwords of at most `0xFFFF_FFFF` bytes, and a text of fewer than
/// `0x4000_0000` characters has at most `0xFFFF_FFFC` bytes in UTF-8.
pub open spec fn hashable(text: Seq<char>) -> bool {
    text.len() < 0x4000_0000
}

/// Whether a text is too long for Argon2 to hash: it has more characters,
/// and so more UTF-8 bytes, than the `0xFFFF_FFFF` bytes Argon2 takes.
pub open spec fn too_long_to_hash(text: Seq<char>) -> bool {
    text.len() > 0xFFFF_FFFF
}

/// Calls `argon2::password_hash::SaltString::generate` with `rand`'s thread
/// generator and `Argon2::default().hash_password(password, &salt)`: a PHC
/// string with a random salt, against which the password checks. With the
/// default parameters and a generated salt, `hash_password` fails only when
/// the password has more than `0xFFFF_FFFF` bytes (`argon2::MAX_PWD_LEN`);
/// the UTF-8 byte count lies between one and four times the character
/// count, so a short enough text is hashed and a longer one is refused. The
/// hash itself is not determined by the password (the salt is random).
#[verifier::external_body]
fn argon2_hash(password: &str) -> (r: Option<String>)
    ensures
        r matches Some(h) ==> (spec_argon2_check(h@, password@) matches Some(Ok(_))),
        hashable(password@) ==> r is Some,
        too_long_to_hash(password@) ==> r is None,
{
    let salt = argon2::password_hash::SaltString::generate(&mut rand::thread_rng());
    match argon2::PasswordHasher::hash_password(&argon2::Argon2::default(), password.as_bytes(), &salt) {
        Ok(h) => Some(h.to_string()),
        Err(_) => None,
    }
}

/// The error text for a hash that is not a PHC string.
pub open spec fn malformed_hash_message() -> Seq<char> {
    "Failed to parse hash in PHC string format."@
}

/// Why a password does not check against a hash: the hash is malformed,
/// or Argon2's refusal prefixed with "AUTH ERROR: " (empty when it checks).
pub open spec fn password_check_error(hash: Seq<char>, password: Seq<char>) -> Seq<char> {
    match spec_argon2_check(hash, password) {
        None => malformed_hash_message(),
        Some(Err(e)) => "AUTH ERROR: "@ + e,
        Some(Ok(_)) => Seq::empty(),
    }
}

/// Whether a password checks against a hash.
pub open spec fn password_matches(hash: Seq<char>, password: Seq<char>) -> bool {
    spec_argon2_check(hash, password) matches Some(Ok(_))
}

/// What checking a password against its hash gives: success when it
/// matches, else the reason.
pub open spec fn password_check_outcome(hash: Seq<char>, password: Seq<char>, r: Result<(), String>) -> bool {
    if password_matches(hash, password) {
        r is Ok
    } else {
        fails_with(r, password_check_error(hash, password))
    }
}

/// Checks a password against the stored hash.
pub fn verify_password_hash(expected_password_hash: &String, password_candidate: &String) -> (r: Result<(), String>)
    ensures
        password_check_outcome(expected_password_hash@, password_candidate@, r),
{
    match argon2_check(expected_password_hash.as_str(), password_candidate.as_str()) {
        None => Err(String::from_str("Failed to parse hash in PHC string format.")),
        Some(Err(e)) => Err(concat2("AUTH ERROR: ", e.as_str())),
        Some(Ok(())) => Ok(()),
    }
}

/// What checking a login gives: credentials that could not be read are
/// reported as such, a password that does not match with the check's
/// reason; otherwise the user's account id.
pub open spec fn credentials_check_outcome(
    stored: Result<StoredCredentials, String>,
    credentials: UserCredentials,
    r: Result<u128, String>,
) -> bool {
    match stored {
        Err(_) => fails_with(r, "Problem getting credentials"@),
        Ok(c) => if password_matches(c.password_hash@, credentials.password@) {
            r == Ok::<u128, String>(c.user_id)
        } else {
            fails_with(r, password_check_error(c.password_hash@, credentials.password@))
        },
    }
}

/// The user's account id when the password matches the stored credentials.
pub fn validate_credentials(
    stored: &Result<StoredCredentials, String>,
    credentials: &UserCredentials,
) -> (r: Result<u128, String>)
    ensures
        credentials_check_outcome(*stored, *credentials, r),
{
    match stored {
        Err(_) => Err(String::from_str("Problem getting credentials")),
        Ok(c) => match verify_password_hash(&c.password_hash, &credentials.password) {
            Err(e) => Err(e),
            Ok(()) => Ok(c.user_id),
        },
    }
}

/// Credentials stored as `hash_credentials` made them log in with the same
/// password: the check gives the user's account id.
pub proof fn law_stored_credentials_log_in(
    hashed: UserCredentialsHashed,
    credentials: UserCredentials,
    user_id: u128,
    r: Result<u128, String>,
)
    requires
        password_matches(hashed.password_hash@, credentials.password@),
        credentials_check_outcome(
            Ok(StoredCredentials { user_id, password_hash: hashed.password_hash }),
            credentials,
            r,
        ),
    ensures
        r == Ok::<u128, String>(user_id),
{
}

/// Whether a new user may be created, given whether the name is taken: an
/// error looking the name up is passed on, a taken name refused.
pub fn registration_check(user_exists: &Result<bool, String>) -> (r: Result<(), String>)
    ensures
        match user_exists {
            Err(e) => fails_with(r, e@),
            Ok(true) => fails_with(r, "User already exsists, can not recreate"@),
            Ok(false) => r is Ok,
        },
{
    match user_exists {
        Err(e) => Err(e.clone()),
        Ok(true) => Err(String::from_str("User already exsists, can not recreate")),
        Ok(false) => Ok(()),
    }
}

/// The credentials to store for a new user: the name and a salted hash of
/// the password, against which the password checks; `None` only for a
/// password too long for Argon2.
pub fn hash_credentials(credentials: &UserCredentials) -> (r: Option<UserCredentialsHashed>)
    ensures
        hashable(credentials.password@) ==> r is Some,
        too_long_to_hash(credentials.password@) ==> r is None,
        r matches Some(h) ==> h.username@ == credentials.username@ && password_matches(
            h.password_hash@,
            credentials.password@,
        ),
{
    match argon2_hash(credentials.password.as_str()) {
        Some(hash) => Some(UserCredentialsHashed { username: credentials.username.clone(), password_hash: hash }),
        None => None,
    }
}

/// A token for validating an e-mail address: a salted Argon2 hash of the
/// seed text (the time of the request), so that tokens differ between
/// requests; `None` only for a seed too long for Argon2.
pub fn new_mail_validation_token(seed: &String) -> (r: Option<String>)
    ensures
        hashable(seed@) ==> r is Some,
        too_long_to_hash(seed@) ==> r is None,
        r matches Some(t) ==> password_matches(t@, seed@),
{
    argon2_hash(seed.as_str())
}

/// The reset secret as it is stored: a salted Argon2 hash against which
/// the secret checks when a password reset token is requested; `None` only
/// for a secret too long for Argon2.
pub fn hash_reset_secret(reset_secret: &String) -> (r: Option<String>)
    ensures
        hashable(reset_secret@) ==> r is Some,
        too_long_to_hash(reset_secret@) ==> r is None,
        r matches Some(h) ==> password_matches(h@, reset_secret@),
{
    argon2_hash(reset_secret.as_str())
}

} // verus!
