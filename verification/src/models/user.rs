//! User records, the credentials that are checked against them, and the
//! password digests that stand in for passwords.

use crate::error::{store_failure, AppError, StoreError};
use argon2::password_hash::rand_core::OsRng;
use argon2::password_hash::SaltString;
use argon2::{Argon2, PasswordHash, PasswordHasher, PasswordVerifier};
use vstd::prelude::*;
use vstd::utf8::encode_utf8;

verus! {

/// Argon2 takes no password of more bytes than this.
pub const MAX_PASSWORD_BYTES: usize = 0xFFFF_FFFF;

/// How every digest begins: the algorithm, its version, and the memory,
/// time and parallelism that the hash cost.
pub const PHC_PREFIX: &'static str = "$argon2id$v=19$m=19456,t=2,p=1$";

/// The length of a fresh salt: sixteen bytes, 128 bits, in Base64.
pub const SALT_CHARS: usize = 22;

/// The length of the hash in a digest: thirty-two bytes in Base64.
pub const HASH_CHARS: usize = 43;

/// The error type of the `password-hash` crate.
#[verifier::external_type_specification]
#[verifier::external_body]
pub struct ExPasswordHashError(argon2::password_hash::Error);

/// The PHC string that Argon2id with its default parameters derives for
/// `password` under the Base64 salt `salt`, or `None` where it refuses.
pub uninterp spec fn argon2_phc(password: Seq<char>, salt: Seq<char>) -> Option<Seq<char>>;

/// What checking `password` against the PHC string `digest` gives: `None`
/// where `digest` does not parse, else whether Argon2, run with the salt and
/// the parameters that `digest` names, arrives at the hash that it holds.
pub uninterp spec fn argon2_check(password: Seq<char>, digest: Seq<char>) -> Option<bool>;

/// Whether hashing under `salt` succeeds for every password of a length that
/// Argon2 takes.
pub open spec fn usable_salt(salt: Seq<char>) -> bool {
    forall|password: Seq<char>|
        encode_utf8(password).len() <= MAX_PASSWORD_BYTES ==> (#[trigger] argon2_phc(
            password,
            salt,
        )) is Some
}

/// Whether `digest` describes itself as a digest under `salt`: the prefix,
/// the salt, a `$`, and a hash of `HASH_CHARS` characters.
pub open spec fn holds_salt(digest: Seq<char>, salt: Seq<char>) -> bool {
    exists|hash: Seq<char>|
        hash.len() == HASH_CHARS && digest == #[trigger] (PHC_PREFIX@ + salt + seq!['$'] + hash)
}

/// Whether `digest` is the string that hashing `password` under `salt`
/// gives, `salt` being one that can be fresh.
pub open spec fn is_digest_under(password: Seq<char>, salt: Seq<char>, digest: Seq<char>) -> bool {
    &&& salt.len() == SALT_CHARS
    &&& argon2_phc(password, salt) == Some(digest)
    &&& holds_salt(digest, salt)
}

/// Whether `digest` is a string that hashing `password` can return.
pub open spec fn is_digest_of(password: Seq<char>, digest: Seq<char>) -> bool {
    exists|salt: Seq<char>| #[trigger] is_digest_under(password, salt, digest)
}

/// `SaltString::generate` over the operating system's generator: sixteen
/// random bytes, written as 22 characters of Base64. Nothing is claimed of
/// the bytes; the contract gives the length and says that the default
/// Argon2 accepts such a salt with any password that is not too long. The
/// call does not come back where the system has no random bytes to give.
#[verifier::external_body]
fn fresh_salt() -> (salt: String)
    ensures
        salt@.len() == SALT_CHARS,
        usable_salt(salt@),
{
    SaltString::generate(&mut OsRng).as_str().to_owned()
}

/// `Argon2::default().hash_password`, with the result written as a PHC
/// string. The contract names the result, which is a function of the
/// password and the salt alone, and says how the string is laid out: the
/// default algorithm, version and parameters, the salt as it was given, and
/// the hash.
#[verifier::external_body]
fn derive_phc(password: &str, salt: &str) -> (r: Result<String, argon2::password_hash::Error>)
    ensures
        match r {
            Ok(digest) => argon2_phc(password@, salt@) == Some(digest@) && holds_salt(
                digest@,
                salt@,
            ),
            Err(_) => argon2_phc(password@, salt@) is None,
        },
{
    let salt = SaltString::from_b64(salt)?;
    Ok(Argon2::default().hash_password(password.as_bytes(), &salt)?.to_string())
}

/// `PasswordHash::new` followed by `Argon2::default().verify_password`. The
/// result is an error exactly where the text does not parse. The last clause
/// is the round trip that the two crates are built for: a string that
/// `hash_password` returned for this password parses, and recomputing under
/// its salt and parameters gives its hash again.
#[verifier::external_body]
fn check_phc(password: &str, digest: &str) -> (r: Result<bool, argon2::password_hash::Error>)
    ensures
        match r {
            Ok(hit) => argon2_check(password@, digest@) == Some(hit),
            Err(_) => argon2_check(password@, digest@) is None,
        },
        is_digest_of(password@, digest@) ==> r is Ok && r.unwrap(),
{
    let parsed = PasswordHash::new(digest)?;
    Ok(Argon2::default().verify_password(password.as_bytes(), &parsed).is_ok())
}

/// What checking `password` against `digest` reports: a digest that hashing
/// made for `password` matches; for any other text the check decides.
pub open spec fn phc_verdict(password: Seq<char>, digest: Seq<char>) -> Option<bool> {
    if is_digest_of(password, digest) {
        Some(true)
    } else {
        argon2_check(password, digest)
    }
}

/// What `hash_password` may return for `password`: a digest made for it
/// under some salt of 128 bits, or `HashingFailed` where the password is too
/// long.
pub open spec fn hash_outcome(password: Seq<char>, r: Result<String, AppError>) -> bool {
    match r {
        Ok(digest) => is_digest_of(password, digest@),
        Err(e) => e == AppError::HashingFailed && encode_utf8(password).len()
            > MAX_PASSWORD_BYTES,
    }
}

/// What `verify_password` returns for `password` and the stored `digest`.
pub open spec fn verify_outcome(password: Seq<char>, digest: Seq<char>) -> Result<
    bool,
    AppError,
> {
    match phc_verdict(password, digest) {
        Some(hit) => Ok(hit),
        None => Err(AppError::MalformedDigest),
    }
}

/// Derives a digest for `password` under a fresh random salt. The digest is
/// a PHC string that holds the salt, the parameters and the hash. Hashing
/// succeeds for every password of at most `MAX_PASSWORD_BYTES` bytes.
pub fn hash_password(password: &str) -> (r: Result<String, AppError>)
    ensures
        hash_outcome(password@, r),
{
    let salt = fresh_salt();
    match derive_phc(password, salt.as_str()) {
        Ok(digest) => {
            assert(is_digest_under(password@, salt@, digest@));
            Ok(digest)
        },
        Err(_) => Err(AppError::HashingFailed),
    }
}

/// Checks `password` against a stored digest: `Ok(true)` on a match,
/// `Ok(false)` on a mismatch, `MalformedDigest` where the stored text is no
/// PHC string.
pub fn verify_password(password: &str, hashed_password: &str) -> (r: Result<bool, AppError>)
    ensures
        r == verify_outcome(password@, hashed_password@),
{
    match check_phc(password, hashed_password) {
        Ok(hit) => Ok(hit),
        Err(_) => Err(AppError::MalformedDigest),
    }
}

/// A user as the store holds it. `password` is the digest, never the
/// password itself, and no token or reply carries it.
#[derive(Clone, Debug, PartialEq, Eq)]
pub struct User {
    pub id: i64,
    pub username: String,
    pub nickname: String,
    pub password: String,
    pub email: String,
    /// Seconds since the Unix epoch.
    pub created_at: i64,
}

/// What a sign-up request holds.
#[derive(Clone, Debug, PartialEq, Eq)]
pub struct CreateUser {
    pub username: String,
    pub email: String,
    pub password: String,
}

/// What a sign-in request holds.
#[derive(Clone, Debug, PartialEq, Eq)]
pub struct SignUser {
    pub email: String,
    pub password: String,
}

/// The row that a sign-up asks the store to insert.
#[derive(Clone, Debug, PartialEq, Eq)]
pub struct NewUser {
    pub username: String,
    pub email: String,
    /// The digest of the password that was sent.
    pub password: String,
}

/// What `User::create` returns for the request `(username, email,
/// password)`: a row with that username and email and a digest of that
/// password, or the failure of the hashing.
pub open spec fn create_outcome(
    username: Seq<char>,
    email: Seq<char>,
    password: Seq<char>,
    r: Result<NewUser, AppError>,
) -> bool {
    match r {
        Ok(row) => row.username@ == username && row.email@ == email && is_digest_of(
            password,
            row.password@,
        ),
        Err(e) => hash_outcome(password, Err(e)),
    }
}

/// What `User::verify` decides for the password that was sent and the answer
/// of the store to the lookup by email, the record given by its digest. The
/// result is the failure, or `None` where the record is handed on.
pub open spec fn signin_failure(password: Seq<char>, found: Result<Seq<char>, StoreError>) -> Option<
    AppError,
> {
    match found {
        Err(StoreError::NotFound) => Some(AppError::InvalidCredentials),
        Err(_) => Some(AppError::PersistenceError),
        Ok(digest) => match verify_outcome(password, digest) {
            Ok(true) => None,
            Ok(false) => Some(AppError::InvalidCredentials),
            Err(e) => Some(e),
        },
    }
}

/// The digest of the record that the store found, if it found one.
pub open spec fn found_digest(found: Result<User, StoreError>) -> Result<Seq<char>, StoreError> {
    match found {
        Ok(user) => Ok(user.password@),
        Err(e) => Err(e),
    }
}

impl User {
    /// First half of a sign-up: hashes the password and makes the row that
    /// the store is to insert. The password itself goes no further.
    pub fn create(user_info: &CreateUser) -> (r: Result<NewUser, AppError>)
        ensures
            create_outcome(user_info.username@, user_info.email@, user_info.password@, r),
    {
        match hash_password(user_info.password.as_str()) {
            Ok(digest) => Ok(
                NewUser {
                    username: user_info.username.clone(),
                    email: user_info.email.clone(),
                    password: digest,
                },
            ),
            Err(e) => Err(e),
        }
    }

    /// Second half of a sign-up: the record as the store inserted it, or
    /// `DuplicateAccount` where the username or the email was taken, or
    /// `PersistenceError`.
    pub fn created(stored: Result<User, StoreError>) -> (r: Result<User, AppError>)
        ensures
            match stored {
                Ok(user) => r == Ok::<User, AppError>(user),
                Err(e) => r == Err::<User, AppError>(store_failure(e)),
            },
    {
        match stored {
            Ok(user) => Ok(user),
            Err(e) => Err(AppError::from_store(e)),
        }
    }

    /// Decides a sign-in from the answer of the store to the lookup by
    /// email: the record where the password matches its digest;
    /// `InvalidCredentials` where the email is unknown or the password is
    /// wrong; `MalformedDigest` where the stored digest is no PHC string;
    /// `PersistenceError` where the store failed.
    pub fn verify(sign_info: &SignUser, found: Result<User, StoreError>) -> (r: Result<
        User,
        AppError,
    >)
        ensures
            match signin_failure(sign_info.password@, found_digest(found)) {
                Some(e) => r == Err::<User, AppError>(e),
                None => found is Ok && r == Ok::<User, AppError>(found->Ok_0),
            },
    {
        match found {
            Err(StoreError::NotFound) => Err(AppError::InvalidCredentials),
            Err(_) => Err(AppError::PersistenceError),
            Ok(user) => match verify_password(sign_info.password.as_str(), user.password.as_str()) {
                Ok(true) => Ok(user),
                Ok(false) => Err(AppError::InvalidCredentials),
                Err(e) => Err(e),
            },
        }
    }
}

/// A password verifies against every digest that hashing returns for it.
pub proof fn lemma_own_digest_verifies(password: Seq<char>, hashed: Result<String, AppError>)
    requires
        hash_outcome(password, hashed),
        hashed is Ok,
    ensures
        verify_outcome(password, hashed->Ok_0@) == Ok::<bool, AppError>(true),
{
}

/// A digest describes itself: it names the algorithm, the version and the
/// parameters, then holds a salt of 128 bits and the hash.
pub proof fn lemma_digest_describes_itself(password: Seq<char>, hashed: Result<String, AppError>)
    requires
        hash_outcome(password, hashed),
        hashed is Ok,
    ensures
        exists|salt: Seq<char>, hash: Seq<char>|
            salt.len() == SALT_CHARS && hash.len() == HASH_CHARS && hashed->Ok_0@ == #[trigger] (
            PHC_PREFIX@ + salt + seq!['$'] + hash),
{
    let digest = hashed->Ok_0@;
    let salt = choose|salt: Seq<char>| #[trigger] is_digest_under(password, salt, digest);
    let hash = choose|hash: Seq<char>|
        hash.len() == HASH_CHARS && digest == #[trigger] (PHC_PREFIX@ + salt + seq!['$'] + hash);
    assert(digest == PHC_PREFIX@ + salt + seq!['$'] + hash);
}

/// Hashing fails on no password of at most `MAX_PASSWORD_BYTES` bytes.
pub proof fn lemma_hashing_succeeds(password: Seq<char>, hashed: Result<String, AppError>)
    requires
        hash_outcome(password, hashed),
        encode_utf8(password).len() <= MAX_PASSWORD_BYTES,
    ensures
        hashed is Ok,
{
}

/// Signing up never stores the password: what is stored is a digest against
/// which the password verifies.
pub proof fn lemma_created_row_verifies(
    username: Seq<char>,
    email: Seq<char>,
    password: Seq<char>,
    r: Result<NewUser, AppError>,
)
    requires
        create_outcome(username, email, password, r),
        r is Ok,
    ensures
        verify_outcome(password, r->Ok_0.password@) == Ok::<bool, AppError>(true),
{
}

/// A wrong password for a known email and any password for an unknown email
/// fail alike, with `InvalidCredentials`.
pub proof fn lemma_signin_failures_alike(
    wrong: Seq<char>,
    digest: Seq<char>,
    any: Seq<char>,
)
    requires
        verify_outcome(wrong, digest) == Ok::<bool, AppError>(false),
    ensures
        signin_failure(wrong, Ok(digest)) == Some(AppError::InvalidCredentials),
        signin_failure(any, Err(StoreError::NotFound)) == Some(AppError::InvalidCredentials),
        signin_failure(wrong, Ok(digest)) == signin_failure(any, Err(StoreError::NotFound)),
{
}

/// A sign-in succeeds exactly where the store found a record and the
/// password matches the digest of that record.
pub proof fn lemma_signin_succeeds_iff(password: Seq<char>, found: Result<Seq<char>, StoreError>)
    ensures
        signin_failure(password, found) is None <==> found is Ok && verify_outcome(
            password,
            found->Ok_0,
        ) == Ok::<bool, AppError>(true),
{
}

} // verus!
