//! Sign-up and sign-in, as decisions on what the user store answered.
//!
//! The server talks to the store; these functions say what follows. For a
//! sign-up the server inserts the row that `User::create` made and hands the
//! answer to `signup_handler`. For a sign-in it looks the email up and hands
//! the answer to `signin_handler`.

use crate::error::{store_failure, AppError, StoreError};
use crate::models::user::{
    create_outcome, found_digest, signin_failure, verify_outcome, NewUser, SignUser, User,
};
use crate::utils::claims::{claim_of, ClaimView};
use crate::utils::jwt::{issued, lemma_issued_token_verifies, public_half, EncodingKey};
use vstd::prelude::*;

verus! {

/// The HTTP status of a reply that carries a fresh token.
pub const CREATED: u16 = 201;

/// Whether `r` is a reply that `key` may give to `user`: the status
/// `CREATED` with a token issued for the user, or `SigningFailed`.
pub open spec fn token_reply(key: Seq<u8>, user: User, r: Result<(u16, String), AppError>) -> bool {
    match r {
        Ok(reply) => reply.0 == CREATED && exists|now: u64|
            now <= u32::MAX && #[trigger] issued(key, claim_of(user), now, reply.1@),
        Err(e) => e == AppError::SigningFailed,
    }
}

/// What `signup_handler` may answer to what the store said of the insert.
pub open spec fn signup_reply(
    key: Seq<u8>,
    stored: Result<User, StoreError>,
    r: Result<(u16, String), AppError>,
) -> bool {
    match stored {
        Ok(user) => token_reply(key, user, r),
        Err(e) => r == Err::<(u16, String), AppError>(store_failure(e)),
    }
}

/// What `signin_handler` may answer to the password that was sent and to
/// what the store said of the lookup.
pub open spec fn signin_reply(
    key: Seq<u8>,
    password: Seq<char>,
    found: Result<User, StoreError>,
    r: Result<(u16, String), AppError>,
) -> bool {
    match signin_failure(password, found_digest(found)) {
        Some(e) => r == Err::<(u16, String), AppError>(e),
        None => found is Ok && token_reply(key, found->Ok_0, r),
    }
}

/// Issues the token for a user who may have one.
fn reply_with_token(ek: &EncodingKey, user: &User) -> (r: Result<(u16, String), AppError>)
    ensures
        token_reply(ek@, *user, r),
{
    match ek.generate(user) {
        Ok(token) => {
            let reply = (CREATED, token);
            proof {
                let now = choose|now: u64|
                    now <= u32::MAX && #[trigger] issued(ek@, claim_of(*user), now, reply.1@);
                assert(now <= u32::MAX && issued(ek@, claim_of(*user), now, reply.1@));
            }
            Ok(reply)
        },
        Err(e) => Err(e),
    }
}

/// Answers a sign-up once the store has answered the insert: a token for
/// the new user, with the status `CREATED`. Where the username or the email
/// was taken the answer is `DuplicateAccount`, for any other failure of the
/// store `PersistenceError`, and no token is issued.
pub fn signup_handler(ek: &EncodingKey, stored: Result<User, StoreError>) -> (r: Result<
    (u16, String),
    AppError,
>)
    ensures
        signup_reply(ek@, stored, r),
{
    match User::created(stored) {
        Ok(user) => reply_with_token(ek, &user),
        Err(e) => Err(e),
    }
}

/// Answers a sign-in once the store has answered the lookup by email: a
/// token for the user, with the status `CREATED`, where the password
/// matches the stored digest. An unknown email and a wrong password both
/// give `InvalidCredentials`.
pub fn signin_handler(
    ek: &EncodingKey,
    input: &SignUser,
    found: Result<User, StoreError>,
) -> (r: Result<(u16, String), AppError>)
    ensures
        signin_reply(ek@, input.password@, found, r),
{
    match User::verify(input, found) {
        Ok(user) => reply_with_token(ek, &user),
        Err(e) => Err(e),
    }
}

/// A sign-up that the store turns away as a duplicate is answered with
/// `DuplicateAccount` and with no token.
pub proof fn lemma_duplicate_signup_gets_no_token(key: Seq<u8>, r: Result<(u16, String), AppError>)
    requires
        signup_reply(key, Err(StoreError::UniqueViolation), r),
    ensures
        r == Err::<(u16, String), AppError>(AppError::DuplicateAccount),
{
}

/// A sign-in with a wrong password and a sign-in with an unknown email get
/// the same answer, `InvalidCredentials`, and no token.
pub proof fn lemma_failed_signins_look_alike(
    key: Seq<u8>,
    wrong: Seq<char>,
    user: User,
    any: Seq<char>,
    known: Result<(u16, String), AppError>,
    unknown: Result<(u16, String), AppError>,
)
    requires
        verify_outcome(wrong, user.password@) == Ok::<bool, AppError>(false),
        signin_reply(key, wrong, Ok(user), known),
        signin_reply(key, any, Err(StoreError::NotFound), unknown),
    ensures
        known == unknown,
        known == Err::<(u16, String), AppError>(AppError::InvalidCredentials),
{
}

/// A token is issued on sign-in only where the store found the user and the
/// password matches the digest of the record.
pub proof fn lemma_token_only_for_matching_password(
    key: Seq<u8>,
    password: Seq<char>,
    found: Result<User, StoreError>,
    r: Result<(u16, String), AppError>,
)
    requires
        signin_reply(key, password, found, r),
        r is Ok,
    ensures
        found is Ok,
        verify_outcome(password, found->Ok_0.password@) == Ok::<
            bool,
            AppError,
        >(true),
{
}

/// A token that a sign-up or a sign-in answers with verifies, under the
/// public half of the key and at the instant at which it was issued, to the
/// id, the nickname and the email of the record that it was issued for.
pub proof fn lemma_reply_verifies_to_the_record(
    key: Seq<u8>,
    user: User,
    r: Result<(u16, String), AppError>,
)
    requires
        token_reply(key, user, r),
        r is Ok,
    ensures
        r->Ok_0.0 == 201,
        exists|now: u64|
            now <= u32::MAX && #[trigger] crate::utils::jwt::verify_outcome(
                public_half(key),
                r->Ok_0.1@,
                now,
            ) == Ok::<ClaimView, AppError>(claim_of(user)),
{
    let token = r->Ok_0.1@;
    let now = choose|now: u64| now <= u32::MAX && #[trigger] issued(key, claim_of(user), now, token);
    lemma_issued_token_verifies(key, claim_of(user), now, token, now);
    assert(crate::utils::jwt::verify_outcome(public_half(key), token, now) == Ok::<
        ClaimView,
        AppError,
    >(claim_of(user)));
}

/// Who signed up can sign in: with the password of the sign-up, and against
/// the record that holds the digest which the sign-up made, a sign-in fails
/// on nothing but the signing, and a token that comes back is one for that
/// record.
pub proof fn lemma_signin_after_signup(
    key: Seq<u8>,
    username: Seq<char>,
    email: Seq<char>,
    password: Seq<char>,
    row: Result<NewUser, AppError>,
    user: User,
    r: Result<(u16, String), AppError>,
)
    requires
        create_outcome(username, email, password, row),
        row is Ok,
        user.password@ == row->Ok_0.password@,
        signin_reply(key, password, Ok(user), r),
    ensures
        token_reply(key, user, r),
        r is Err ==> r == Err::<(u16, String), AppError>(AppError::SigningFailed),
{
}

} // verus!
