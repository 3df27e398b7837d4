//! Signed session tokens: issuing them with the private key, and verifying
//! them with the public key.
//!
//! The signature scheme and the token encoding are those of `jwt-simple`.
//! What a token must say to be accepted is decided in `claims`, and what a
//! text must look like to be a token at all in `wire`.

use crate::error::{AppError, RejectReason};
use crate::models::user::User;
use crate::utils::claims::{
    acceptance, claim_of, lemma_sealed_claims_accepted_until_expiry, sealed, Claim, ClaimView,
    Envelope, EnvelopeView, EMAIL_FIELD, ID_FIELD, JWT_AUD, JWT_DURATION, JWT_ISS, NICKNAME_FIELD,
};
use crate::utils::wire::{compact, framed, is_framed, MAX_TOKEN_BYTES};
use jwt_simple::prelude::{
    Audiences, Clock, Duration, Ed25519KeyPair, Ed25519PublicKey, EdDSAKeyPairLike,
    EdDSAPublicKeyLike, JWTClaims, VerificationOptions,
};
use jwt_simple::reexports::serde_json;
use jwt_simple::reexports::serde_json::Value;
use vstd::prelude::*;
use vstd::slice::slice_subrange;
use vstd::utf8::encode_utf8;

verus! {

/// The length of an Ed25519 key pair: the seed, then the public key.
pub const KEY_PAIR_BYTES: usize = 64;

/// The length of an Ed25519 public key.
pub const PUBLIC_KEY_BYTES: usize = 32;

/// The payload of a token as `jwt-simple` hands it out: every field that is
/// none of the registered claims.
type Fields = serde_json::Map<String, Value>;

/// The error type of `jwt-simple`.
#[verifier::external_type_specification]
#[verifier::external_body]
pub struct ExJwtError(jwt_simple::Error);

/// The bytes of the key pair that the PEM text `pem` holds, or `None` where
/// it holds none.
pub uninterp spec fn ed25519_key_pair(pem: Seq<char>) -> Option<Seq<u8>>;

/// The bytes of the public key that the PEM text `pem` holds, or `None`
/// where it holds none.
pub uninterp spec fn ed25519_public_key(pem: Seq<char>) -> Option<Seq<u8>>;

/// The claims that `token` hands out under the public key `key`, or `None`
/// where the text is no token, is too long, or is not signed by the key.
/// No instant enters: whether the token has expired is not asked here.
pub uninterp spec fn jwt_open(key: Seq<u8>, token: Seq<char>) -> Option<EnvelopeView>;

/// `Ed25519KeyPair::from_pem`, then `to_bytes`: the key pair that a PKCS#8
/// PEM text holds, as the 32 bytes of the seed followed by the 32 bytes of
/// the public key. The contract names the result and gives its length.
#[verifier::external_body]
fn key_pair_from_pem(pem: &str) -> (r: Result<Vec<u8>, jwt_simple::Error>)
    ensures
        match r {
            Ok(key) => ed25519_key_pair(pem@) == Some(key@) && key@.len() == KEY_PAIR_BYTES,
            Err(_) => ed25519_key_pair(pem@) is None,
        },
{
    Ed25519KeyPair::from_pem(pem).map(|pair| pair.to_bytes())
}

/// `Ed25519PublicKey::from_pem`, then `to_bytes`: the public key that a PEM
/// text holds, as its 32 bytes. The contract names the result and gives its
/// length.
#[verifier::external_body]
fn public_key_from_pem(pem: &str) -> (r: Result<Vec<u8>, jwt_simple::Error>)
    ensures
        match r {
            Ok(key) => ed25519_public_key(pem@) == Some(key@) && key@.len() == PUBLIC_KEY_BYTES,
            Err(_) => ed25519_public_key(pem@) is None,
        },
{
    Ed25519PublicKey::from_pem(pem).map(|key| key.to_bytes())
}

/// `Ed25519KeyPair::from_bytes`, then `sign`, on claims with the given
/// issuer and audience, the three instants of the token format (issued at
/// and not before `issued_at`, expiring at `expires_at`), and a payload of
/// three fields, called as `names` says: the id, the nickname and the email
/// of `claim`. The signature takes fresh random noise from the operating
/// system, so nothing is claimed of the text that comes back; `confirm`
/// decides whether it is handed out. The call does not come back where the
/// system has no random bytes to give.
#[verifier::external_body]
fn sign_claims(
    key: &[u8],
    claim: &Claim,
    names: (&str, &str, &str),
    issuer: &str,
    audience: &str,
    issued_at: u64,
    expires_at: u64,
) -> Result<String, jwt_simple::Error> {
    let mut custom = serde_json::Map::new();
    custom.insert(names.0.to_string(), Value::from(claim.id));
    custom.insert(names.1.to_string(), Value::from(claim.nickname.as_str()));
    custom.insert(names.2.to_string(), Value::from(claim.email.as_str()));
    let claims = JWTClaims {
        issued_at: Some(Duration::from_secs(issued_at)),
        invalid_before: Some(Duration::from_secs(issued_at)),
        expires_at: Some(Duration::from_secs(expires_at)),
        issuer: Some(issuer.to_string()),
        audiences: Some(Audiences::AsString(audience.to_string())),
        custom,
        subject: None, jwt_id: None, nonce: None,
    };
    Ed25519KeyPair::from_bytes(key)?.sign(claims)
}

/// `Ed25519PublicKey::from_bytes`, then `verify_token`, with the crate's own
/// checks of the instants switched off (its clock set to 0, no tolerance,
/// tokens from the future accepted): it decodes the token and checks the
/// signature, and the instants are judged by `accept`. What comes back is
/// every claim of the token but its subject, its id and its nonce: issuer,
/// audience (see `Envelope`), the three instants, and each other field of
/// the payload with its name, in the order in which the crate's map walks
/// them. The contract names the result, which is a function of the key and
/// the text alone.
#[verifier::external_body]
fn open_token(key: &[u8], token: &str) -> (r: Result<Envelope, jwt_simple::Error>)
    ensures
        match r {
            Ok(envelope) => jwt_open(key@, token@) == Some(envelope@),
            Err(_) => jwt_open(key@, token@) is None,
        },
{
    let mut options = VerificationOptions::default();
    options.accept_future = true;
    options.time_tolerance = None;
    options.artificial_time = Some(Duration::from_secs(0));
    let claims = Ed25519PublicKey::from_bytes(key)?.verify_token::<Fields>(token, Some(options))?;
    let secs = |instant: Duration| instant.as_secs();
    Ok(Envelope {
        issuer: claims.issuer,
        audience: claims.audiences.and_then(|a| a.into_string().ok()),
        issued_at: claims.issued_at.map(secs),
        not_before: claims.invalid_before.map(secs),
        expires_at: claims.expires_at.map(secs),
        payload: claims.custom.iter()
            .map(|(k, v)| (k.clone(), v.as_i64(), v.as_str().map(String::from))).collect(),
    })
}

/// `Clock::now_since_epoch`, in whole seconds. The clock of the machine
/// decides, so the contract gives only the range of the crate's instants.
/// The crate takes the clock to be set after 1970.
#[verifier::external_body]
fn unix_now() -> (now: u64)
    ensures
        now <= u32::MAX,
{
    Clock::now_since_epoch().as_secs()
}

/// What verifying `token` under the public key `key` at the instant `now`
/// gives: `InvalidSignature` where the text cannot be a token or does not
/// open under the key, else what accepting its claims gives.
pub open spec fn verify_outcome(key: Seq<u8>, token: Seq<char>, now: u64) -> Result<
    ClaimView,
    AppError,
> {
    if !framed(token) {
        Err(AppError::InvalidSignature)
    } else {
        match jwt_open(key, token) {
            Some(envelope) => acceptance(envelope, now),
            None => Err(AppError::InvalidSignature),
        }
    }
}

/// Whether `r` is what verifying `token` under `key` at `now` gives.
pub open spec fn verified_as(
    key: Seq<u8>,
    token: Seq<char>,
    now: u64,
    r: Result<Claim, AppError>,
) -> bool {
    match r {
        Ok(claim) => verify_outcome(key, token, now) == Ok::<ClaimView, AppError>(claim@),
        Err(e) => verify_outcome(key, token, now) == Err::<ClaimView, AppError>(e),
    }
}

/// The public half of a key pair.
pub open spec fn public_half(pair: Seq<u8>) -> Seq<u8> {
    pair.subrange(PUBLIC_KEY_BYTES as int, KEY_PAIR_BYTES as int)
}

/// Whether `token` is one that the key pair `pair` may have issued for
/// `claim` at the instant `issued_at`: it has the compact form and a length
/// that a verifier takes, and it opens under the public half of the pair, to
/// the claims of this service for `claim`: issued at `issued_at`, expiring
/// seven days later, and with nothing but the identity in the payload.
pub open spec fn issued(pair: Seq<u8>, claim: ClaimView, issued_at: u64, token: Seq<char>) -> bool {
    &&& issued_at + JWT_DURATION <= u64::MAX
    &&& framed(token)
    &&& jwt_open(public_half(pair), token) is Some
    &&& sealed(
        jwt_open(public_half(pair), token)->Some_0,
        claim,
        issued_at,
        (issued_at + JWT_DURATION) as u64,
    )
}

/// The private signing key: the seed and the public key of an Ed25519 key
/// pair, `KEY_PAIR_BYTES` bytes in all.
pub struct EncodingKey {
    key: Vec<u8>,
}

impl View for EncodingKey {
    type V = Seq<u8>;

    closed spec fn view(&self) -> Seq<u8> {
        self.key@
    }
}

/// Whether a token that the signing gave may be handed out: it is framed
/// as a token, and it reads back as the claims of this service for `claim`,
/// issued at `issued_at` and expiring at `expires_at`.
pub open spec fn confirmed(
    signed: Option<String>,
    reopened: Option<Envelope>,
    claim: ClaimView,
    issued_at: u64,
    expires_at: u64,
) -> bool {
    &&& signed is Some
    &&& framed(signed->Some_0@)
    &&& reopened is Some
    &&& sealed(reopened->Some_0@, claim, issued_at, expires_at)
}

/// Hands the token out if it is framed as a token and reads back as the
/// claims that were to be sealed into it; else `SigningFailed`. `signed` is
/// what the signing gave, `reopened` what opening that token under the
/// public half of the key gave.
pub fn confirm(
    signed: Option<String>,
    reopened: Option<Envelope>,
    claim: &Claim,
    issued_at: u64,
    expires_at: u64,
) -> (r: Result<String, AppError>)
    ensures
        match r {
            Ok(token) => confirmed(signed, reopened, claim@, issued_at, expires_at) && signed
                == Some(token),
            Err(e) => e == AppError::SigningFailed && !confirmed(
                signed,
                reopened,
                claim@,
                issued_at,
                expires_at,
            ),
        },
{
    match (signed, reopened) {
        (Some(token), Some(envelope)) => {
            if is_framed(token.as_str()) && envelope.is_sealed(claim, issued_at, expires_at) {
                Ok(token)
            } else {
                Err(AppError::SigningFailed)
            }
        },
        _ => Err(AppError::SigningFailed),
    }
}

impl EncodingKey {
    #[verifier::type_invariant]
    spec fn well_formed(self) -> bool {
        self.key@.len() == KEY_PAIR_BYTES
    }

    /// Reads the key pair from a PKCS#8 PEM text; `KeyLoadError` where the
    /// text holds none.
    pub fn load(pem: &str) -> (r: Result<EncodingKey, AppError>)
        ensures
            match r {
                Ok(key) => ed25519_key_pair(pem@) == Some(key@) && key@.len() == KEY_PAIR_BYTES,
                Err(e) => e == AppError::KeyLoadError && ed25519_key_pair(pem@) is None,
            },
    {
        match key_pair_from_pem(pem) {
            Ok(key) => Ok(EncodingKey { key }),
            Err(_) => Err(AppError::KeyLoadError),
        }
    }

    /// Issues a token for `user` at the instant `now`: the identity of the
    /// user and nothing else of the user, the issuer and the audience of
    /// this service, `now` as the instant of issue, and an expiry seven days
    /// after `now`. The token is handed out only after it has been read
    /// back under the public half of the key, so every token that comes
    /// back is one that `issued` describes. Any failure, and an instant
    /// that the token format cannot hold, is `SigningFailed`.
    pub fn generate_at(&self, user: &User, now: u64) -> (r: Result<String, AppError>)
        ensures
            match r {
                Ok(token) => issued(self@, claim_of(*user), now, token@),
                Err(e) => e == AppError::SigningFailed,
            },
    {
        proof {
            use_type_invariant(self);
        }
        if now > u64::MAX - JWT_DURATION {
            return Err(AppError::SigningFailed);
        }
        let claim = Claim::of(user);
        let expires_at = now + JWT_DURATION;
        let pair = self.key.as_slice();
        let public = slice_subrange(pair, PUBLIC_KEY_BYTES, KEY_PAIR_BYTES);
        let names = (ID_FIELD, NICKNAME_FIELD, EMAIL_FIELD);
        let signed = match sign_claims(pair, &claim, names, JWT_ISS, JWT_AUD, now, expires_at) {
            Ok(token) => Some(token),
            Err(_) => None,
        };
        let reopened = match &signed {
            Some(token) => match open_token(public, token.as_str()) {
                Ok(envelope) => Some(envelope),
                Err(_) => None,
            },
            None => None,
        };
        confirm(signed, reopened, &claim, now, expires_at)
    }

    /// Issues a token for `user` at the instant that the clock shows, which
    /// is one that the token format can hold. See `generate_at`.
    pub fn generate(&self, user: &User) -> (r: Result<String, AppError>)
        ensures
            match r {
                Ok(token) => exists|now: u64|
                    now <= u32::MAX && #[trigger] issued(self@, claim_of(*user), now, token@),
                Err(e) => e == AppError::SigningFailed,
            },
    {
        let now = unix_now();
        let r = self.generate_at(user, now);
        proof {
            if r is Ok {
                assert(now <= u32::MAX && issued(self@, claim_of(*user), now, r->Ok_0@));
            }
        }
        r
    }
}

/// The public verification key: the 32 bytes of an Ed25519 public key.
pub struct DecodingKey {
    key: Vec<u8>,
}

impl View for DecodingKey {
    type V = Seq<u8>;

    closed spec fn view(&self) -> Seq<u8> {
        self.key@
    }
}

impl DecodingKey {
    /// Reads the public key from a PEM text; `KeyLoadError` where the text
    /// holds none.
    pub fn load(pem: &str) -> (r: Result<DecodingKey, AppError>)
        ensures
            match r {
                Ok(key) => ed25519_public_key(pem@) == Some(key@) && key@.len()
                    == PUBLIC_KEY_BYTES,
                Err(e) => e == AppError::KeyLoadError && ed25519_public_key(pem@) is None,
            },
    {
        match public_key_from_pem(pem) {
            Ok(key) => Ok(DecodingKey { key }),
            Err(_) => Err(AppError::KeyLoadError),
        }
    }

    /// Whether this is the public half of the key pair `ek`, so that it
    /// verifies what `ek` issues.
    pub fn matches(&self, ek: &EncodingKey) -> (r: bool)
        ensures
            r == (self@ == public_half(ek@)),
    {
        proof {
            use_type_invariant(ek);
        }
        let public = slice_subrange(ek.key.as_slice(), PUBLIC_KEY_BYTES, KEY_PAIR_BYTES);
        if self.key.len() != PUBLIC_KEY_BYTES {
            return false;
        }
        let mut i: usize = 0;
        while i < PUBLIC_KEY_BYTES
            invariant
                i <= PUBLIC_KEY_BYTES,
                self.key@.len() == PUBLIC_KEY_BYTES,
                public@ == public_half(ek@),
                public@.len() == PUBLIC_KEY_BYTES,
                forall|k: int| 0 <= k < i ==> self.key@[k] == public@[k],
            decreases PUBLIC_KEY_BYTES - i,
        {
            if self.key[i] != public[i] {
                return false;
            }
            i += 1;
        }
        assert(self.key@ =~= public@);
        true
    }

    /// Verifies `token` at the instant `now`: `InvalidSignature` where the
    /// text is too long or not of the compact form, or does not open under
    /// this key; else what `accept` says of its claims.
    pub fn verify_at(&self, token: &str, now: u64) -> (r: Result<Claim, AppError>)
        ensures
            verified_as(self@, token@, now, r),
    {
        if !is_framed(token) {
            return Err(AppError::InvalidSignature);
        }
        match open_token(self.key.as_slice(), token) {
            Ok(envelope) => envelope.accept(now),
            Err(_) => Err(AppError::InvalidSignature),
        }
    }

    /// Verifies `token` at the instant that the clock shows, which is one
    /// that the token format can hold. See `verify_at`.
    pub fn verify(&self, token: &str) -> (r: Result<Claim, AppError>)
        ensures
            exists|now: u64| now <= u32::MAX && #[trigger] verified_as(self@, token@, now, r),
    {
        let now = unix_now();
        let r = self.verify_at(token, now);
        assert(now <= u32::MAX && verified_as(self@, token@, now, r));
        r
    }
}

/// A text that is too long, or not of the form `header.payload.signature`,
/// verifies under no key and at no instant.
pub proof fn lemma_unframed_text_never_verifies(key: Seq<u8>, token: Seq<char>, now: u64)
    requires
        encode_utf8(token).len() > MAX_TOKEN_BYTES || !compact(token),
    ensures
        verify_outcome(key, token, now) == Err::<ClaimView, AppError>(AppError::InvalidSignature),
{
}

/// A token that was issued for an identity verifies to that identity,
/// under the public half of the key that issued it, at every instant
/// strictly before its expiry.
pub proof fn lemma_issued_token_verifies(
    pair: Seq<u8>,
    claim: ClaimView,
    issued_at: u64,
    token: Seq<char>,
    now: u64,
)
    requires
        issued(pair, claim, issued_at, token),
        now < issued_at + JWT_DURATION,
    ensures
        verify_outcome(public_half(pair), token, now) == Ok::<ClaimView, AppError>(claim),
{
    lemma_sealed_claims_accepted_until_expiry(
        jwt_open(public_half(pair), token)->Some_0,
        claim,
        issued_at,
        (issued_at + JWT_DURATION) as u64,
        now,
    );
}

/// From the instant of its expiry on, seven days after it was issued, a
/// token is rejected as expired.
pub proof fn lemma_expired_token_rejected(
    pair: Seq<u8>,
    claim: ClaimView,
    issued_at: u64,
    token: Seq<char>,
    now: u64,
)
    requires
        issued(pair, claim, issued_at, token),
        now >= issued_at + JWT_DURATION,
    ensures
        verify_outcome(public_half(pair), token, now) == Err::<ClaimView, AppError>(
            AppError::TokenRejected(RejectReason::Expired),
        ),
{
    lemma_sealed_claims_accepted_until_expiry(
        jwt_open(public_half(pair), token)->Some_0,
        claim,
        issued_at,
        (issued_at + JWT_DURATION) as u64,
        now,
    );
}

/// A token says when it was issued, for whom, and until when: the instant
/// of issue, the instant from which it is valid and the expiry are those of
/// `issued`, seven days apart, and the payload is the identity.
pub proof fn lemma_issued_token_says_when_and_for_whom(
    pair: Seq<u8>,
    claim: ClaimView,
    issued_at: u64,
    token: Seq<char>,
)
    requires
        issued(pair, claim, issued_at, token),
    ensures
        ({
            let envelope = jwt_open(public_half(pair), token)->Some_0;
            &&& envelope.issued_at == Some(issued_at)
            &&& envelope.not_before == Some(issued_at)
            &&& envelope.expires_at == Some((issued_at + 604800) as u64)
            &&& envelope.payload.len() == 3
        }),
{
}

/// Two tokens of one key pair that were issued at different instants, or
/// for different identities, differ.
pub proof fn lemma_tokens_of_different_instants_differ(
    pair: Seq<u8>,
    first_claim: ClaimView,
    first_at: u64,
    first: Seq<char>,
    second_claim: ClaimView,
    second_at: u64,
    second: Seq<char>,
)
    requires
        issued(pair, first_claim, first_at, first),
        issued(pair, second_claim, second_at, second),
        first_at != second_at || first_claim != second_claim,
    ensures
        first != second,
{
}

/// Two tokens for one user, whenever each was issued, verify to the same
/// identity while neither has expired.
pub proof fn lemma_tokens_agree(
    pair: Seq<u8>,
    claim: ClaimView,
    first_at: u64,
    first: Seq<char>,
    second_at: u64,
    second: Seq<char>,
    now: u64,
)
    requires
        issued(pair, claim, first_at, first),
        issued(pair, claim, second_at, second),
        now < first_at + JWT_DURATION,
        now < second_at + JWT_DURATION,
    ensures
        verify_outcome(public_half(pair), first, now) == verify_outcome(
            public_half(pair),
            second,
            now,
        ),
        verify_outcome(public_half(pair), first, now) == Ok::<ClaimView, AppError>(claim),
{
    lemma_issued_token_verifies(pair, claim, first_at, first, now);
    lemma_issued_token_verifies(pair, claim, second_at, second, now);
}

} // verus!
