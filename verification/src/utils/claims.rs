//! What a token says: the identity that it carries and the claims around
//! it, and which claims this service accepts. No key and no signature is
//! looked at here.

use crate::error::{AppError, RejectReason};
use crate::models::user::User;
use vstd::prelude::*;

verus! {

/// How long a token is valid: seven days, in seconds.
pub const JWT_DURATION: u64 = 60 * 60 * 24 * 7;

/// The issuer that every token of this service names.
pub const JWT_ISS: &'static str = "chat_server";

/// The audience that every token of this service names.
pub const JWT_AUD: &'static str = "chat_web";

/// The identity that a token carries.
#[derive(Clone, Debug, PartialEq, Eq)]
pub struct Claim {
    pub id: i64,
    pub nickname: String,
    pub email: String,
}

/// A `Claim` as a mathematical value.
pub struct ClaimView {
    pub id: i64,
    pub nickname: Seq<char>,
    pub email: Seq<char>,
}

impl View for Claim {
    type V = ClaimView;

    open spec fn view(&self) -> ClaimView {
        ClaimView { id: self.id, nickname: self.nickname@, email: self.email@ }
    }
}

/// The name of the payload field that holds the id.
pub const ID_FIELD: &'static str = "id";

/// The name of the payload field that holds the nickname.
pub const NICKNAME_FIELD: &'static str = "nickname";

/// The name of the payload field that holds the email.
pub const EMAIL_FIELD: &'static str = "email";

/// The claims of a token, each as far as the token holds it. Instants are
/// seconds since the Unix epoch.
#[derive(Clone, Debug, PartialEq, Eq)]
pub struct Envelope {
    pub issuer: Option<String>,
    /// The audience, where the token names one. A list of audiences stands
    /// here as its one name where it has one and as the empty text where it
    /// is empty; a longer list does not stand here.
    pub audience: Option<String>,
    pub issued_at: Option<u64>,
    pub not_before: Option<u64>,
    pub expires_at: Option<u64>,
    /// Every field of the payload that is none of the claims above: its
    /// name, its value where that is an integer, and its value where that
    /// is a text.
    pub payload: Vec<(String, Option<i64>, Option<String>)>,
}

/// A field of a payload as a mathematical value.
pub struct FieldView {
    pub name: Seq<char>,
    pub number: Option<i64>,
    pub text: Option<Seq<char>>,
}

/// An `Envelope` as a mathematical value.
pub struct EnvelopeView {
    pub issuer: Option<Seq<char>>,
    pub audience: Option<Seq<char>>,
    pub issued_at: Option<u64>,
    pub not_before: Option<u64>,
    pub expires_at: Option<u64>,
    pub payload: Seq<FieldView>,
}

/// The view of a text that may be absent.
pub open spec fn text_view(text: Option<String>) -> Option<Seq<char>> {
    match text {
        Some(t) => Some(t@),
        None => None,
    }
}

/// The view of a field.
pub open spec fn field_view(field: (String, Option<i64>, Option<String>)) -> FieldView {
    FieldView { name: field.0@, number: field.1, text: text_view(field.2) }
}

/// The view of a payload.
pub open spec fn payload_view(payload: Seq<(String, Option<i64>, Option<String>)>) -> Seq<
    FieldView,
> {
    Seq::new(payload.len(), |i: int| field_view(payload[i]))
}

impl View for Envelope {
    type V = EnvelopeView;

    open spec fn view(&self) -> EnvelopeView {
        EnvelopeView {
            issuer: text_view(self.issuer),
            audience: text_view(self.audience),
            issued_at: self.issued_at,
            not_before: self.not_before,
            expires_at: self.expires_at,
            payload: payload_view(self.payload@),
        }
    }
}

/// The first field of `payload` that is called `name`.
pub open spec fn lookup(payload: Seq<FieldView>, name: Seq<char>) -> Option<FieldView>
    decreases payload.len(),
{
    if payload.len() == 0 {
        None
    } else if payload.first().name == name {
        Some(payload.first())
    } else {
        lookup(payload.drop_first(), name)
    }
}

/// The identity that `payload` holds: an integer called `id`, a text called
/// `nickname` and a text called `email`.
pub open spec fn identity(payload: Seq<FieldView>) -> Option<ClaimView> {
    let id = lookup(payload, ID_FIELD@);
    let nickname = lookup(payload, NICKNAME_FIELD@);
    let email = lookup(payload, EMAIL_FIELD@);
    if id is Some && id->Some_0.number is Some && nickname is Some && nickname->Some_0.text is Some
        && email is Some && email->Some_0.text is Some {
        Some(
            ClaimView {
                id: id->Some_0.number->Some_0,
                nickname: nickname->Some_0.text->Some_0,
                email: email->Some_0.text->Some_0,
            },
        )
    } else {
        None
    }
}

/// The payload that a token for `user` carries: never the digest.
pub open spec fn claim_of(user: User) -> ClaimView {
    ClaimView { id: user.id, nickname: user.nickname@, email: user.email@ }
}

/// Whether `envelope` holds the claims of a token of this service for
/// `claim`, issued at `issued_at` and expiring at `expires_at`: the issuer
/// and the audience of this service, the token valid from the instant at
/// which it was issued, and a payload of three fields that are the identity.
pub open spec fn sealed(
    envelope: EnvelopeView,
    claim: ClaimView,
    issued_at: u64,
    expires_at: u64,
) -> bool {
    &&& envelope.issuer == Some(JWT_ISS@)
    &&& envelope.audience == Some(JWT_AUD@)
    &&& envelope.issued_at == Some(issued_at)
    &&& envelope.not_before == Some(issued_at)
    &&& envelope.expires_at == Some(expires_at)
    &&& envelope.payload.len() == 3
    &&& identity(envelope.payload) == Some(claim)
}

/// What accepting the claims `envelope` at the instant `now` gives: the
/// identity, where the issuer and the audience are those of this service,
/// `now` lies strictly before the expiry, and the payload holds an identity.
/// The first check that fails gives the reason.
pub open spec fn acceptance(envelope: EnvelopeView, now: u64) -> Result<ClaimView, AppError> {
    if envelope.issuer != Some(JWT_ISS@) {
        Err(AppError::TokenRejected(RejectReason::WrongIssuer))
    } else if envelope.audience != Some(JWT_AUD@) {
        Err(AppError::TokenRejected(RejectReason::WrongAudience))
    } else if envelope.expires_at is None {
        Err(AppError::TokenRejected(RejectReason::MissingExpiry))
    } else if now >= envelope.expires_at->Some_0 {
        Err(AppError::TokenRejected(RejectReason::Expired))
    } else {
        match identity(envelope.payload) {
            Some(claim) => Ok(claim),
            None => Err(AppError::TokenRejected(RejectReason::Malformed)),
        }
    }
}

/// Whether `text` is present and reads `expected`.
fn text_is(text: &Option<String>, expected: &str) -> (r: bool)
    ensures
        r == (text_view(*text) == Some(expected@)),
{
    match text {
        Some(t) => {
            let wanted = expected.to_owned();
            *t == wanted
        },
        None => false,
    }
}

/// Fields that are not called `name` are passed over.
proof fn lemma_lookup_skips(payload: Seq<FieldView>, name: Seq<char>, i: int)
    requires
        0 <= i <= payload.len(),
        forall|j: int| 0 <= j < i ==> (#[trigger] payload[j]).name != name,
    ensures
        lookup(payload, name) == lookup(payload.skip(i), name),
    decreases i,
{
    if i == 0 {
        assert(payload.skip(0) =~= payload);
    } else {
        let rest = payload.drop_first();
        assert(payload.first() == payload[0]);
        assert forall|j: int| 0 <= j < i - 1 implies (#[trigger] rest[j]).name != name by {
            assert(rest[j] == payload[j + 1]);
        }
        lemma_lookup_skips(rest, name, i - 1);
        assert(rest.skip(i - 1) =~= payload.skip(i));
    }
}

/// A field that is found is a field of the payload and has the name that
/// was looked for.
proof fn lemma_lookup_finds(payload: Seq<FieldView>, name: Seq<char>) -> (i: int)
    requires
        lookup(payload, name) is Some,
    ensures
        0 <= i < payload.len(),
        payload[i] == lookup(payload, name)->Some_0,
        payload[i].name == name,
    decreases payload.len(),
{
    if payload.first().name == name {
        0
    } else {
        let rest = payload.drop_first();
        let i = lemma_lookup_finds(rest, name);
        assert(rest[i] == payload[i + 1]);
        i + 1
    }
}

/// Where the first field called `name` stands in `payload`.
fn find(payload: &Vec<(String, Option<i64>, Option<String>)>, name: &str) -> (r: Option<usize>)
    ensures
        match r {
            Some(i) => i < payload.len() && lookup(payload_view(payload@), name@) == Some(
                field_view(payload@[i as int]),
            ),
            None => lookup(payload_view(payload@), name@) is None,
        },
{
    let wanted = name.to_owned();
    let ghost fields = payload_view(payload@);
    let mut i: usize = 0;
    while i < payload.len()
        invariant
            i <= payload.len(),
            wanted@ == name@,
            fields == payload_view(payload@),
            forall|j: int| 0 <= j < i ==> (#[trigger] fields[j]).name != name@,
        decreases payload.len() - i,
    {
        if payload[i].0 == wanted {
            proof {
                lemma_lookup_skips(fields, name@, i as int);
                assert(fields.skip(i as int).first() == fields[i as int]);
            }
            return Some(i);
        }
        i += 1;
    }
    proof {
        lemma_lookup_skips(fields, name@, i as int);
        assert(fields.skip(i as int).len() == 0);
    }
    None
}

/// The identity that the payload holds, if it holds one.
fn identity_of(payload: &Vec<(String, Option<i64>, Option<String>)>) -> (r: Option<Claim>)
    ensures
        match r {
            Some(claim) => identity(payload_view(payload@)) == Some(claim@),
            None => identity(payload_view(payload@)) is None,
        },
{
    let id = match find(payload, ID_FIELD) {
        Some(i) => payload[i].1,
        None => None,
    };
    let nickname = match find(payload, NICKNAME_FIELD) {
        Some(i) => match &payload[i].2 {
            Some(text) => Some(text.clone()),
            None => None,
        },
        None => None,
    };
    let email = match find(payload, EMAIL_FIELD) {
        Some(i) => match &payload[i].2 {
            Some(text) => Some(text.clone()),
            None => None,
        },
        None => None,
    };
    match (id, nickname, email) {
        (Some(id), Some(nickname), Some(email)) => Some(Claim { id, nickname, email }),
        _ => None,
    }
}

impl Claim {
    /// The identity of `user`, as a token carries it.
    pub fn of(user: &User) -> (claim: Claim)
        ensures
            claim@ == claim_of(*user),
    {
        Claim { id: user.id, nickname: user.nickname.clone(), email: user.email.clone() }
    }

    /// Whether two identities are the same.
    pub fn same(&self, other: &Claim) -> (r: bool)
        ensures
            r == (self@ == other@),
    {
        self.id == other.id && self.nickname == other.nickname && self.email == other.email
    }
}

impl Envelope {
    /// Whether these are the claims of a token of this service for `claim`,
    /// issued at `issued_at` and expiring at `expires_at`, and nothing
    /// besides.
    pub fn is_sealed(&self, claim: &Claim, issued_at: u64, expires_at: u64) -> (r: bool)
        ensures
            r == sealed(self@, claim@, issued_at, expires_at),
    {
        if !text_is(&self.issuer, JWT_ISS) || !text_is(&self.audience, JWT_AUD) {
            return false;
        }
        let instants = match (self.issued_at, self.not_before, self.expires_at) {
            (Some(a), Some(b), Some(c)) => a == issued_at && b == issued_at && c == expires_at,
            _ => false,
        };
        if !instants || self.payload.len() != 3 {
            return false;
        }
        match identity_of(&self.payload) {
            Some(found) => found.same(claim),
            None => false,
        }
    }

    /// Accepts the claims of a token at the instant `now`, whatever the
    /// signature said: the issuer and the audience must be those of this
    /// service, `now` must lie strictly before the expiry, and the payload
    /// must hold an identity.
    pub fn accept(&self, now: u64) -> (r: Result<Claim, AppError>)
        ensures
            match r {
                Ok(claim) => acceptance(self@, now) == Ok::<ClaimView, AppError>(claim@),
                Err(e) => acceptance(self@, now) == Err::<ClaimView, AppError>(e),
            },
    {
        if !text_is(&self.issuer, JWT_ISS) {
            return Err(AppError::TokenRejected(RejectReason::WrongIssuer));
        }
        if !text_is(&self.audience, JWT_AUD) {
            return Err(AppError::TokenRejected(RejectReason::WrongAudience));
        }
        match self.expires_at {
            None => {
                return Err(AppError::TokenRejected(RejectReason::MissingExpiry));
            },
            Some(expires_at) => {
                if now >= expires_at {
                    return Err(AppError::TokenRejected(RejectReason::Expired));
                }
            },
        }
        match identity_of(&self.payload) {
            Some(claim) => Ok(claim),
            None => Err(AppError::TokenRejected(RejectReason::Malformed)),
        }
    }
}

/// Claims that name another issuer or another audience are rejected for
/// that, at every instant and whatever else they hold. No key and no
/// signature enters the decision.
pub proof fn lemma_foreign_claims_rejected(envelope: EnvelopeView, now: u64)
    ensures
        envelope.issuer != Some(JWT_ISS@) ==> acceptance(envelope, now) == Err::<
            ClaimView,
            AppError,
        >(AppError::TokenRejected(RejectReason::WrongIssuer)),
        envelope.issuer == Some(JWT_ISS@) && envelope.audience != Some(JWT_AUD@) ==> acceptance(
            envelope,
            now,
        ) == Err::<ClaimView, AppError>(AppError::TokenRejected(RejectReason::WrongAudience)),
{
}

/// The claims of a token of this service are accepted strictly before their
/// expiry, as the identity that was sealed, and rejected as expired from
/// then on.
pub proof fn lemma_sealed_claims_accepted_until_expiry(
    envelope: EnvelopeView,
    claim: ClaimView,
    issued_at: u64,
    expires_at: u64,
    now: u64,
)
    requires
        sealed(envelope, claim, issued_at, expires_at),
    ensures
        now < expires_at ==> acceptance(envelope, now) == Ok::<ClaimView, AppError>(claim),
        now >= expires_at ==> acceptance(envelope, now) == Err::<ClaimView, AppError>(
            AppError::TokenRejected(RejectReason::Expired),
        ),
{
}

/// The payload of a token of this service holds the id, the nickname and
/// the email, each once, and no other field.
pub proof fn lemma_sealed_payload_is_the_identity(
    envelope: EnvelopeView,
    claim: ClaimView,
    issued_at: u64,
    expires_at: u64,
)
    requires
        sealed(envelope, claim, issued_at, expires_at),
    ensures
        forall|i: int|
            0 <= i < envelope.payload.len() ==> {
                let field = #[trigger] envelope.payload[i];
                ||| field.name == ID_FIELD@ && field.number == Some(claim.id)
                ||| field.name == NICKNAME_FIELD@ && field.text == Some(claim.nickname)
                ||| field.name == EMAIL_FIELD@ && field.text == Some(claim.email)
            },
        exists|i: int, n: int, e: int|
            #![trigger envelope.payload[i], envelope.payload[n], envelope.payload[e]]
            0 <= i < 3 && 0 <= n < 3 && 0 <= e < 3 && i != n && i != e && n != e
                && envelope.payload[i].name == ID_FIELD@ && envelope.payload[n].name
                == NICKNAME_FIELD@ && envelope.payload[e].name == EMAIL_FIELD@,
{
    reveal_strlit("id");
    reveal_strlit("nickname");
    reveal_strlit("email");
    let payload = envelope.payload;
    let i = lemma_lookup_finds(payload, ID_FIELD@);
    let n = lemma_lookup_finds(payload, NICKNAME_FIELD@);
    let e = lemma_lookup_finds(payload, EMAIL_FIELD@);
    assert(ID_FIELD@.len() == 2 && NICKNAME_FIELD@.len() == 8 && EMAIL_FIELD@.len() == 5);
    assert(i != n && i != e && n != e);
    assert(payload[i].name == ID_FIELD@ && payload[n].name == NICKNAME_FIELD@ && payload[e].name
        == EMAIL_FIELD@);
    assert forall|j: int| 0 <= j < payload.len() implies {
        let field = #[trigger] payload[j];
        ||| field.name == ID_FIELD@ && field.number == Some(claim.id)
        ||| field.name == NICKNAME_FIELD@ && field.text == Some(claim.nickname)
        ||| field.name == EMAIL_FIELD@ && field.text == Some(claim.email)
    } by {
        assert(j == i || j == n || j == e);
    }
}

} // verus!
