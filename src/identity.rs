//! The decisions of the identity store: password hashing and checking with Argon2,
//! and the outcome of a registration or a login. The rows themselves are kept by
//! the storage collaborator.
use argon2::password_hash::{Error as HashError, PasswordHash, PasswordHasher, PasswordVerifier, SaltString};
use argon2::Argon2;
use rand_core::{OsRng, RngCore};
use vstd::prelude::*;
use vstd::string::*;
use crate::session::PubkeyStored;

verus! {

/// How a stored password hash answers a password.
#[derive(PartialEq, Eq, Structural)]
pub enum PasswordCheck {
    /// The password is the one the hash was made from.
    Match,
    /// The password is not the one the hash was made from. A readable PHC string
    /// that lacks a salt or an output also gives this.
    Mismatch,
    /// The hash cannot be read, or checking it failed.
    Invalid,
}

/// Argon2's verdict on `password` against the PHC string `hash`.
pub uninterp spec fn argon2_verdict(hash: Seq<char>, password: Seq<char>) -> PasswordCheck;

/// Relies on PasswordHash::new and Argon2's PasswordVerifier::verify_password:
/// `Error::Password` is the one error that means a wrong password.
#[verifier::external_body]
fn check_password(hash: &str, password: &str) -> (r: PasswordCheck)
    ensures
        r == argon2_verdict(hash@, password@),
{
    match PasswordHash::new(hash) {
        Ok(parsed) => match Argon2::default().verify_password(password.as_bytes(), &parsed) {
            Ok(()) => PasswordCheck::Match,
            Err(HashError::Password) => PasswordCheck::Mismatch,
            Err(_) => PasswordCheck::Invalid,
        },
        Err(_) => PasswordCheck::Invalid,
    }
}

/// The longest password, in bytes, that Argon2 hashes.
pub open spec fn max_password_len() -> nat {
    0xFFFF_FFFF
}

/// Relies on rand_core's OsRng::try_fill_bytes: sixteen random bytes for a salt, or
/// `None` where the operating system's random source failed. Nothing is known of
/// the bytes.
#[verifier::external_body]
fn fresh_salt() -> (r: Option<[u8; 16]>) {
    let mut bytes = [0u8; 16];
    match OsRng.try_fill_bytes(&mut bytes) {
        Ok(()) => Some(bytes),
        Err(_) => None,
    }
}

/// Relies on SaltString::encode_b64 and Argon2's PasswordHasher::hash_password with
/// default parameters: the PHC string of `password` under the salt `salt`, which
/// Argon2 verifies against that password. Sixteen salt bytes always encode, and
/// hashing fails only for a password longer than `MAX_PWD_LEN`.
#[verifier::external_body]
fn hash_with_salt(password: &str, salt: &[u8; 16]) -> (r: Option<String>)
    ensures
        r matches Some(h) ==> argon2_verdict(h@, password@) == PasswordCheck::Match,
        password.spec_bytes().len() <= max_password_len() ==> r is Some,
{
    let salt = match SaltString::encode_b64(salt) {
        Ok(salt) => salt,
        Err(_) => return None,
    };
    match Argon2::default().hash_password(password.as_bytes(), &salt) {
        Ok(h) => Some(h.to_string()),
        Err(_) => None,
    }
}

/// The outcome of a `login` or `register` against the identity store.
#[derive(PartialEq, Eq, Structural)]
pub enum AuthOutcome {
    /// The user with this id is now authenticated.
    Accepted(i64),
    /// No user has this passphrase, or the password is wrong.
    BadCredentials,
    /// Registration: the passphrase is taken.
    AlreadyExists,
    /// The store or the verifier failed.
    StorageError,
}

/// What the store holds for one passphrase.
pub struct StoredUser {
    pub id: i64,
    pub password_hash: String,
}

/// Whether `password` is the one `hash` was made from; an error where the hash cannot
/// be read or the check fails otherwise.
pub fn password_matches(hash: &str, password: &str) -> (r: Result<bool, ()>)
    ensures
        r == match argon2_verdict(hash@, password@) {
            PasswordCheck::Match => Ok::<bool, ()>(true),
            PasswordCheck::Mismatch => Ok(false),
            PasswordCheck::Invalid => Err(()),
        },
{
    match check_password(hash, password) {
        PasswordCheck::Match => Ok(true),
        PasswordCheck::Mismatch => Ok(false),
        PasswordCheck::Invalid => Err(()),
    }
}

/// The outcome of a login, given what the store holds for the passphrase. An unknown
/// passphrase and a wrong password both give `BadCredentials`.
pub fn authenticate_stored(stored: Option<StoredUser>, password: &str) -> (r: AuthOutcome)
    ensures
        r == match stored {
            None => AuthOutcome::BadCredentials,
            Some(u) => match argon2_verdict(u.password_hash@, password@) {
                PasswordCheck::Match => AuthOutcome::Accepted(u.id),
                PasswordCheck::Mismatch => AuthOutcome::BadCredentials,
                PasswordCheck::Invalid => AuthOutcome::StorageError,
            },
        },
{
    match stored {
        None => AuthOutcome::BadCredentials,
        Some(u) => match password_matches(u.password_hash.as_str(), password) {
            Ok(true) => AuthOutcome::Accepted(u.id),
            Ok(false) => AuthOutcome::BadCredentials,
            Err(()) => AuthOutcome::StorageError,
        },
    }
}

/// The password hash to store for a new user under the salt `salt`, given whether
/// the passphrase is taken. A taken passphrase gives `AlreadyExists`; otherwise the
/// result is an Argon2 hash that verifies the password, and it fails, with
/// `StorageError`, only for a password too long to hash.
pub fn registration_hash_with_salt(passphrase_taken: bool, password: &str, salt: &[u8; 16]) -> (r:
    Result<String, AuthOutcome>)
    ensures
        passphrase_taken ==> r == Err::<String, AuthOutcome>(AuthOutcome::AlreadyExists),
        !passphrase_taken ==> match r {
            Ok(h) => argon2_verdict(h@, password@) == PasswordCheck::Match,
            Err(e) => e == AuthOutcome::StorageError && password.spec_bytes().len()
                > max_password_len(),
        },
{
    if passphrase_taken {
        return Err(AuthOutcome::AlreadyExists);
    }
    match hash_with_salt(password, salt) {
        Some(h) => Ok(h),
        None => Err(AuthOutcome::StorageError),
    }
}

/// The password hash to store for a new user, under a fresh random salt. A taken
/// passphrase gives `AlreadyExists`. Otherwise the result is an Argon2 hash that
/// verifies the password, or `StorageError` where no random salt could be had or
/// the password is too long to hash; the salted hashing is
/// [`registration_hash_with_salt`].
pub fn registration_hash(passphrase_taken: bool, password: &str) -> (r: Result<String, AuthOutcome>)
    ensures
        passphrase_taken ==> r == Err::<String, AuthOutcome>(AuthOutcome::AlreadyExists),
        !passphrase_taken ==> match r {
            Ok(h) => argon2_verdict(h@, password@) == PasswordCheck::Match,
            Err(e) => e == AuthOutcome::StorageError,
        },
{
    if passphrase_taken {
        return Err(AuthOutcome::AlreadyExists);
    }
    match fresh_salt() {
        Some(salt) => registration_hash_with_salt(false, password, &salt),
        None => Err(AuthOutcome::StorageError),
    }
}

/// Whether the `users` table already has the `pubkey` column, given its column
/// names. Where it has not, the store adds it in place before first use.
pub fn has_pubkey_column(columns: &Vec<String>) -> (r: bool)
    ensures
        r == exists|i: int| 0 <= i < columns@.len() && #[trigger] columns@[i]@ == "pubkey"@,
{
    let want = "pubkey".to_owned();
    let mut k: usize = 0;
    while k < columns.len()
        invariant
            k <= columns@.len(),
            want@ == "pubkey"@,
            forall|i: int| 0 <= i < k ==> #[trigger] columns@[i]@ != "pubkey"@,
        decreases columns@.len() - k,
    {
        if columns[k] == want {
            return true;
        }
        k = k + 1;
    }
    false
}

/// What an update of a user's key came to, from the number of rows it changed, or
/// `None` where the store failed: one row means stored, none means no such user.
pub fn pubkey_update_outcome(rows_changed: Option<usize>) -> (r: PubkeyStored)
    ensures
        r == match rows_changed {
            Some(n) => if n == 1 {
                PubkeyStored::Stored
            } else {
                PubkeyStored::NoSuchUser
            },
            None => PubkeyStored::Failed,
        },
{
    match rows_changed {
        Some(n) => if n == 1 {
            PubkeyStored::Stored
        } else {
            PubkeyStored::NoSuchUser
        },
        None => PubkeyStored::Failed,
    }
}

} // verus!
