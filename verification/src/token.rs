//! Bearer tokens: compact, signed, expiring claims. Any holder of the signing
//! secret can verify a token without a round trip to storage.

use vstd::prelude::*;
use vstd::string::StringExecFns;
use crate::clock::unix_now;
use crate::error::{result_view, ErrorView, MyError};
use crate::ids::{format_id, uuid_parse, uuid_text};
use crate::user::{Utilisateur, UtilisateurView};

verus! {

/// How long a token stays valid after it is issued, in seconds (24 hours).
pub const TOKEN_VALIDITY_SECS: i64 = 86400;

/// Detail of the failure reported when no signing secret is configured.
pub const MSG_SECRET_ABSENT: &'static str = "JWT_SECRET not set";

/// Detail of the failure reported when a token cannot be produced.
pub const MSG_EMISSION: &'static str = "Failed to generate token";

/// Prefix of the detail of every token rejection.
pub const MSG_JETON_INVALIDE: &'static str = "Invalid token: ";

/// Cause named when a token's payload lacks a claim or holds one of the wrong shape.
pub const CAUSE_MALFORMED: &'static str = "InvalidToken";

/// Cause named when a token's expiry lies in the past.
pub const CAUSE_EXPIRED: &'static str = "ExpiredSignature";

/// The signed payload of a bearer token.
#[derive(Debug)]
pub struct Claims {
    /// The user's id, in its textual form.
    pub sub: String,
    /// The user's role when the token was issued.
    pub role: String,
    /// The instant the token expires, in Unix seconds.
    pub exp: usize,
}

/// The mathematical content of [`Claims`].
pub ghost struct ClaimsView {
    pub sub: Seq<char>,
    pub role: Seq<char>,
    pub exp: usize,
}

impl View for Claims {
    type V = ClaimsView;

    open spec fn view(&self) -> ClaimsView {
        ClaimsView { sub: self.sub@, role: self.role@, exp: self.exp }
    }
}

/// What a token's payload holds under the three claim names, before any of it
/// is judged: a text claim is absent when the payload lacks it or holds
/// something other than a string, the expiry when it is not a non-negative integer.
#[derive(Debug)]
pub struct RawClaims {
    pub sub: Option<String>,
    pub role: Option<String>,
    pub exp: Option<u64>,
}

/// The mathematical content of [`RawClaims`].
pub ghost struct RawClaimsView {
    pub sub: Option<Seq<char>>,
    pub role: Option<Seq<char>>,
    pub exp: Option<u64>,
}

impl View for RawClaims {
    type V = RawClaimsView;

    open spec fn view(&self) -> RawClaimsView {
        RawClaimsView {
            sub: match self.sub {
                Some(text) => Some(text@),
                None => None,
            },
            role: match self.role {
                Some(text) => Some(text@),
                None => None,
            },
            exp: self.exp,
        }
    }
}

impl ClaimsView {
    /// The payload that holds exactly these claims.
    pub open spec fn raw(self) -> RawClaimsView {
        RawClaimsView { sub: Some(self.sub), role: Some(self.role), exp: Some(self.exp as u64) }
    }
}

/// The error type of the jsonwebtoken crate. Proofs see nothing inside it.
#[verifier::external_type_specification]
#[verifier::external_body]
pub struct ExJwtError(jsonwebtoken::errors::Error);

/// The token `jsonwebtoken::encode` produces for the three claims under an
/// HMAC-SHA256 secret with the default header.
pub uninterp spec fn jwt_signed(sub: Seq<char>, role: Seq<char>, exp: usize, secret: Seq<char>)
    -> Seq<char>;

/// The payload `jsonwebtoken::decode` hands out for a token under an
/// HMAC-SHA256 secret when it checks structure and signature but not the
/// expiry, or `None` where it reports an error.
pub uninterp spec fn jwt_payload(token: Seq<char>, secret: Seq<char>) -> Option<RawClaimsView>;

/// Signs claims with `jsonwebtoken::encode`, under `Header::default()` (HS256)
/// and `EncodingKey::from_secret`, the payload being a JSON object with the
/// members `sub`, `role` and `exp`. The contract claims that the call
/// succeeds: the key and the default header are both of the HMAC family, a
/// payload of two strings and an integer always serialises, and signing with
/// HMAC has no failure. It names the token, and records that `decode` under
/// the same secret hands the same three claims back.
#[verifier::external_body]
pub(crate) fn jwt_encode(claims: &Claims, secret: &str) -> (r: Result<
    String,
    jsonwebtoken::errors::Error,
>)
    ensures
        r is Ok,
        r matches Ok(token) ==> token@ == jwt_signed(
            claims.sub@,
            claims.role@,
            claims.exp,
            secret@,
        ) && jwt_payload(token@, secret@) == Some(claims@.raw()),
{
    let mut payload = serde_json::Map::new();
    payload.insert("sub".to_string(), serde_json::Value::from(claims.sub.as_str()));
    payload.insert("role".to_string(), serde_json::Value::from(claims.role.as_str()));
    payload.insert("exp".to_string(), serde_json::Value::from(claims.exp));
    let key = jsonwebtoken::EncodingKey::from_secret(secret.as_bytes());
    jsonwebtoken::encode(&jsonwebtoken::Header::default(), &payload, &key)
}

/// Opens a token with `jsonwebtoken::decode`, under `Validation::new(HS256)`
/// with the expiry check switched off and `DecodingKey::from_secret`, and hands
/// out the members `sub`, `role` and `exp` of the payload. The call reads no
/// clock. The contract names the outcome.
#[verifier::external_body]
pub(crate) fn jwt_decode(token: &str, secret: &str) -> (r: Result<
    RawClaims,
    jsonwebtoken::errors::Error,
>)
    ensures
        match r {
            Ok(raw) => jwt_payload(token@, secret@) == Some(raw@),
            Err(_) => jwt_payload(token@, secret@) is None,
        },
{
    let mut validation = jsonwebtoken::Validation::new(jsonwebtoken::Algorithm::HS256);
    validation.validate_exp = false;
    let key = jsonwebtoken::DecodingKey::from_secret(secret.as_bytes());
    let data = jsonwebtoken::decode::<serde_json::Value>(token, &key, &validation)?;
    Ok(RawClaims {
        sub: data.claims.get("sub").and_then(serde_json::Value::as_str).map(str::to_owned),
        role: data.claims.get("role").and_then(serde_json::Value::as_str).map(str::to_owned),
        exp: data.claims.get("exp").and_then(serde_json::Value::as_u64),
    })
}

/// The text of a token error, from its `Display`. Nothing is claimed of it.
#[verifier::external_body]
pub(crate) fn jwt_error_text(error: &jsonwebtoken::errors::Error) -> String {
    error.to_string()
}

/// The expiry of a token issued at `now`: 24 hours later, where that instant
/// is not negative and fits the expiry field.
pub open spec fn expiry_at(now: int) -> Option<usize> {
    if 0 <= now + TOKEN_VALIDITY_SECS <= usize::MAX {
        Some((now + TOKEN_VALIDITY_SECS) as usize)
    } else {
        None
    }
}

/// Computes the expiry of a token issued at `now`.
pub fn expiry_after(now: i64) -> (exp: Option<usize>)
    ensures
        exp == expiry_at(now as int),
{
    let instant: i128 = now as i128 + TOKEN_VALIDITY_SECS as i128;
    if instant < 0 || instant > usize::MAX as i128 {
        None
    } else {
        Some(instant as usize)
    }
}

/// The claims of a token issued to `user` with expiry `exp`.
pub open spec fn claims_of(user: UtilisateurView, exp: usize) -> ClaimsView {
    ClaimsView { sub: uuid_text(user.id), role: user.role, exp }
}

/// Builds the claims for `user`: the id in textual form, the role as it stands
/// now, and the given expiry. The subject reads back to the user's id.
pub fn claims_for(user: &Utilisateur, exp: usize) -> (claims: Claims)
    ensures
        claims@ == claims_of(user@, exp),
        uuid_parse(claims@.sub) == Some(user.id),
{
    Claims { sub: format_id(user.id), role: user.role.clone(), exp }
}

/// The token issued to `user` at `now` under `secret`, or `None` where none is:
/// no secret, or an instant whose expiry cannot be represented.
pub open spec fn issued(user: UtilisateurView, secret: Option<Seq<char>>, now: int) -> Option<
    Seq<char>,
> {
    match (secret, expiry_at(now)) {
        (Some(key), Some(exp)) => Some(jwt_signed(uuid_text(user.id), user.role, exp, key)),
        _ => None,
    }
}

/// The text of an optional secret.
pub open spec fn secret_text(secret: Option<&str>) -> Option<Seq<char>> {
    match secret {
        Some(key) => Some(key@),
        None => None,
    }
}

/// Whether `r` is the result of issuing a token for `user` at `now` under
/// `secret`. Success is the token of [`issued`]; it opens, under the same
/// secret, to exactly the claims it was issued for, and its subject reads back
/// to the user's id. A token is issued whenever there is a secret and the
/// expiry can be represented. Without a secret the failure is `Custom` with
/// [`MSG_SECRET_ABSENT`]; with an expiry out of range it is `Custom` with
/// [`MSG_EMISSION`].
pub open spec fn issuance(
    user: UtilisateurView,
    secret: Option<Seq<char>>,
    now: int,
    r: Result<Seq<char>, ErrorView>,
) -> bool {
    match r {
        Ok(token) => {
            &&& issued(user, secret, now) == Some(token)
            &&& secret is Some
            &&& expiry_at(now) is Some
            &&& jwt_payload(token, secret->0) == Some(claims_of(user, expiry_at(now)->0).raw())
            &&& uuid_parse(uuid_text(user.id)) == Some(user.id)
        },
        Err(failure) => {
            &&& issued(user, secret, now) is None
            &&& failure == ErrorView::Custom(
                if secret is None {
                    MSG_SECRET_ABSENT@
                } else {
                    MSG_EMISSION@
                },
            )
        },
    }
}

/// Issues a token for `user` at the instant `now`: claims with the user's id
/// and current role, expiring 24 hours after `now`, signed under `secret`.
/// The result is exactly what [`issuance`] describes.
pub fn generate_jwt_at(user: &Utilisateur, secret: Option<&str>, now: i64) -> (r: Result<
    String,
    MyError,
>)
    ensures
        issuance(user@, secret_text(secret), now as int, result_view(r)),
{
    let key = match secret {
        Some(key) => key,
        None => {
            return Err(MyError::Custom(String::from_str(MSG_SECRET_ABSENT)));
        },
    };
    let exp = match expiry_after(now) {
        Some(exp) => exp,
        None => {
            return Err(MyError::Custom(String::from_str(MSG_EMISSION)));
        },
    };
    let claims = claims_for(user, exp);
    match jwt_encode(&claims, key) {
        Ok(token) => Ok(token),
        Err(_) => Err(MyError::Custom(String::from_str(MSG_EMISSION))),
    }
}

/// Issues a token for `user` at the current instant of the system clock: the
/// result is what [`issuance`] describes for the instant the clock gave.
pub fn generate_jwt(user: &Utilisateur, secret: Option<&str>) -> (r: Result<String, MyError>)
    ensures
        exists|now: int| #[trigger] issuance(user@, secret_text(secret), now, result_view(r)),
{
    let now = unix_now();
    let r = generate_jwt_at(user, secret, now);
    assert(issuance(user@, secret_text(secret), now as int, result_view(r)));
    r
}

/// The claims a payload yields at `now`, or the cause for which it is turned
/// away: a claim is missing or the expiry does not fit its field, or the expiry
/// is past. There is no grace period: a complete payload is accepted exactly
/// while `now <= exp`.
pub open spec fn judged(raw: RawClaimsView, now: int) -> Result<ClaimsView, Seq<char>> {
    match raw {
        RawClaimsView { sub: Some(sub), role: Some(role), exp: Some(exp) } => {
            if exp > usize::MAX {
                Err(CAUSE_MALFORMED@)
            } else if exp < now {
                Err(CAUSE_EXPIRED@)
            } else {
                Ok(ClaimsView { sub, role, exp: exp as usize })
            }
        },
        _ => Err(CAUSE_MALFORMED@),
    }
}

/// The rejection of a token for the given cause.
pub open spec fn rejection(cause: Seq<char>) -> ErrorView {
    ErrorView::Unauthorized(MSG_JETON_INVALIDE@ + cause)
}

/// What judging a payload at `now` returns: the claims, or the rejection for
/// the cause of [`judged`].
pub open spec fn judged_outcome(raw: RawClaimsView, now: int) -> Result<ClaimsView, ErrorView> {
    match judged(raw, now) {
        Ok(claims) => Ok(claims),
        Err(cause) => Err(rejection(cause)),
    }
}

/// Whether `r` is the result of verifying `token` under `secret` at `now`. A
/// token that opens under the secret is judged by its payload; one that does
/// not is rejected as `Unauthorized`, with a detail that begins with
/// [`MSG_JETON_INVALIDE`] and goes on with the opener's own words.
pub open spec fn verification(
    token: Seq<char>,
    secret: Seq<char>,
    now: int,
    r: Result<ClaimsView, ErrorView>,
) -> bool {
    match jwt_payload(token, secret) {
        Some(raw) => r == judged_outcome(raw, now),
        None => r is Err && r->Err_0 is Unauthorized && MSG_JETON_INVALIDE@.is_prefix_of(
            r->Err_0.detail(),
        ),
    }
}

/// Builds the rejection of a token for the given cause.
pub fn token_rejection(cause: &str) -> (e: MyError)
    ensures
        e@ == rejection(cause@),
        MSG_JETON_INVALIDE@.is_prefix_of(e@.detail()),
{
    let e = MyError::Unauthorized(String::from_str(MSG_JETON_INVALIDE).concat(cause));
    assert(MSG_JETON_INVALIDE@ =~= (MSG_JETON_INVALIDE@ + cause@).subrange(
        0,
        MSG_JETON_INVALIDE@.len() as int,
    ));
    e
}

/// Judges an opened payload at the instant `now`. All three claims must be
/// present and the expiry must not lie before `now`; otherwise the token is
/// rejected as `Unauthorized`, naming the cause.
pub fn judge_payload(raw: RawClaims, now: i64) -> (r: Result<Claims, MyError>)
    ensures
        result_view(r) == judged_outcome(raw@, now as int),
{
    match raw {
        RawClaims { sub: Some(sub), role: Some(role), exp: Some(exp) } => {
            if exp > usize::MAX as u64 {
                Err(token_rejection(CAUSE_MALFORMED))
            } else if now >= 0 && exp < now as u64 {
                Err(token_rejection(CAUSE_EXPIRED))
            } else {
                Ok(Claims { sub, role, exp: exp as usize })
            }
        },
        _ => Err(token_rejection(CAUSE_MALFORMED)),
    }
}

/// Judges what opening a token gave, at the instant `now`: a token that could
/// not be opened is rejected with the opener's own words as the cause, an
/// opened payload is judged by [`judge_payload`].
pub fn judge_opened(opened: Result<RawClaims, jsonwebtoken::errors::Error>, now: i64) -> (r:
    Result<Claims, MyError>)
    ensures
        match opened {
            Ok(raw) => result_view(r) == judged_outcome(raw@, now as int),
            Err(_) => r matches Err(e) && e@ is Unauthorized && MSG_JETON_INVALIDE@.is_prefix_of(
                e@.detail(),
            ),
        },
{
    match opened {
        Ok(raw) => {
            let ghost verdict = judged(raw@, now as int);
            let r = judge_payload(raw, now);
            proof {
                if let Err(cause) = verdict {
                    assert(MSG_JETON_INVALIDE@ =~= (MSG_JETON_INVALIDE@ + cause).subrange(
                        0,
                        MSG_JETON_INVALIDE@.len() as int,
                    ));
                }
            }
            r
        },
        Err(cause) => {
            let text = jwt_error_text(&cause);
            Err(token_rejection(text.as_str()))
        },
    }
}

/// Verifies `token` under `secret` at the instant `now`: structure, signature
/// and expiry. The result is exactly what [`verification`] describes: the
/// claims when the token opens under the secret to a complete payload whose
/// expiry is not before `now`, and an `Unauthorized` rejection otherwise.
pub fn verify_jwt_at(token: &str, secret: &str, now: i64) -> (r: Result<Claims, MyError>)
    ensures
        verification(token@, secret@, now as int, result_view(r)),
{
    judge_opened(jwt_decode(token, secret), now)
}

/// Verifies `token` under `secret` at the current instant of the system clock:
/// the result is what [`verification`] describes for the instant the clock gave.
pub fn verify_jwt(token: &str, secret: &str) -> (r: Result<Claims, MyError>)
    ensures
        exists|now: int| #[trigger] verification(token@, secret@, now, result_view(r)),
{
    let now = unix_now();
    let r = verify_jwt_at(token, secret, now);
    assert(verification(token@, secret@, now as int, result_view(r)));
    r
}

} // verus!
