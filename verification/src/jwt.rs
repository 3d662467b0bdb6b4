//! Issuing and validating signed session tokens.
//!
//! Signing and signature checking are done by the `jsonwebtoken` crate; what
//! it returns is named by `signed_token` and `decoded_token`. Everything that
//! is decided after decoding (which claims are well formed, when a token has
//! expired, which failure the caller sees) is decided and proved here.

use vstd::prelude::*;
use jsonwebtoken::errors::ErrorKind;
use crate::claims::{Claims, ClaimsView};
use crate::clock::{unix_now, LATEST_ISSUE};
use crate::errors::AuthError;

verus! {

/// `jsonwebtoken::errors::Error`, the failure of an encode or a decode.
#[verifier::external_type_specification]
#[verifier::external_body]
pub struct ExTokenError(jsonwebtoken::errors::Error);

/// The kinds of failure that decoding tells apart.
#[derive(Debug, Clone, Copy, PartialEq, Eq, Hash, Structural)]
pub enum DecodeFailure {
    /// The text does not have the shape of a token.
    InvalidToken,
    /// The signature does not match the secret.
    InvalidSignature,
    /// The payload lacks the expiry time.
    MissingRequiredClaim,
    /// The decoder itself found the token expired.
    ExpiredSignature,
    /// The header names another signing algorithm.
    InvalidAlgorithm,
    /// A segment is not base64url text.
    Base64,
    /// The header or the payload is not the expected JSON.
    Json,
    /// A segment is not UTF-8 text.
    Utf8,
    /// The payload names an issuer that is not accepted.
    InvalidIssuer,
    /// The payload names an audience that is not accepted.
    InvalidAudience,
    /// The payload names a subject that is not accepted.
    InvalidSubject,
    /// The payload says that the token is not valid yet.
    ImmatureSignature,
    /// Any other failure: a key or an algorithm that cannot be used.
    Other,
}

/// The members of a decoded payload, each present only if the payload holds
/// it with the expected JSON type.
#[derive(Debug, Clone, PartialEq, Eq)]
pub struct RawClaims {
    pub sub: Option<String>,
    pub iss: Option<String>,
    pub exp: Option<u64>,
    pub iat: Option<u64>,
    pub role: Option<String>,
}

/// A decoded payload in mathematical form.
pub struct RawClaimsView {
    pub sub: Option<Seq<char>>,
    pub iss: Option<Seq<char>>,
    pub exp: Option<nat>,
    pub iat: Option<nat>,
    pub role: Option<Seq<char>>,
}

/// The characters of an optional text.
pub open spec fn text_of(text: Option<String>) -> Option<Seq<char>> {
    match text {
        Some(t) => Some(t@),
        None => None,
    }
}

/// The value of an optional number.
pub open spec fn number_of(number: Option<u64>) -> Option<nat> {
    match number {
        Some(n) => Some(n as nat),
        None => None,
    }
}

impl View for RawClaims {
    type V = RawClaimsView;

    open spec fn view(&self) -> RawClaimsView {
        RawClaimsView {
            sub: text_of(self.sub),
            iss: text_of(self.iss),
            exp: number_of(self.exp),
            iat: number_of(self.iat),
            role: text_of(self.role),
        }
    }
}

/// The payload that holds exactly the given claims.
pub open spec fn raw_of(claims: ClaimsView) -> RawClaimsView {
    RawClaimsView {
        sub: Some(claims.sub),
        iss: Some(claims.iss),
        exp: Some(claims.exp),
        iat: Some(claims.iat),
        role: Some(claims.role),
    }
}

/// The claims that a payload holds, if all five members are present and the
/// two times fit the machine's word.
pub open spec fn claims_of(raw: RawClaimsView) -> Option<ClaimsView> {
    if raw.sub is Some && raw.iss is Some && raw.exp is Some && raw.iat is Some && raw.role is Some
        && raw.exp->0 <= usize::MAX && raw.iat->0 <= usize::MAX {
        Some(
            ClaimsView {
                sub: raw.sub->0,
                iss: raw.iss->0,
                exp: raw.exp->0,
                iat: raw.iat->0,
                role: raw.role->0,
            },
        )
    } else {
        None
    }
}

/// Whether a character belongs to the base64url alphabet: a letter, a
/// digit, `-` or `_`. The padding sign is not among them.
pub open spec fn is_base64url_char(c: char) -> bool {
    ('A' <= c && c <= 'Z') || ('a' <= c && c <= 'z') || ('0' <= c && c <= '9') || c == '-' || c
        == '_'
}

/// Whether a text is a segment of a token: not empty, and base64url
/// throughout.
pub open spec fn is_segment(text: Seq<char>) -> bool {
    text.len() > 0 && forall|i: int| 0 <= i < text.len() ==> is_base64url_char(#[trigger] text[i])
}

/// Three segments joined by two dots.
pub open spec fn compact_form(header: Seq<char>, payload: Seq<char>, signature: Seq<char>) -> Seq<
    char,
> {
    header + seq!['.'] + payload + seq!['.'] + signature
}

/// Whether a text has the compact form of a signed token: exactly three
/// segments (header, payload, signature), each not empty and base64url
/// without padding, separated by exactly two dots.
pub open spec fn is_compact(token: Seq<char>) -> bool {
    exists|header: Seq<char>, payload: Seq<char>, signature: Seq<char>|
        is_segment(header) && is_segment(payload) && is_segment(signature) && #[trigger] compact_form(
            header,
            payload,
            signature,
        ) == token
}

/// Whether a character can stand in a token: a base64url character, or
/// the dot between two segments.
pub open spec fn is_wire_char(c: char) -> bool {
    is_base64url_char(c) || c == '.'
}

/// Whether a text is made of token characters only.
pub open spec fn is_wire_text(text: Seq<char>) -> bool {
    forall|i: int| 0 <= i < text.len() ==> is_wire_char(#[trigger] text[i])
}

/// The token that `jsonwebtoken::encode` returns for the claims, signed
/// with HMAC-SHA256 under the secret.
pub uninterp spec fn signed_token(claims: ClaimsView, secret: Seq<char>) -> Seq<char>;

/// What `jsonwebtoken::decode` returns for the token under the secret, with
/// the expiry check switched off: the payload of a token whose signature
/// matches, or the kind of failure.
pub uninterp spec fn decoded_token(token: Seq<char>, secret: Seq<char>) -> Result<
    RawClaimsView,
    DecodeFailure,
>;

/// The kind of a `jsonwebtoken` error, as `Error::kind` gives it.
pub uninterp spec fn failure_kind(error: jsonwebtoken::errors::Error) -> DecodeFailure;

/// Whether a token carries the given claims under the given secret: it
/// has the compact form; decoded under that secret it gives exactly those
/// claims; decoded under any other secret it gives the same claims or a
/// signature mismatch, and nothing else.
pub open spec fn carries(token: Seq<char>, claims: ClaimsView, secret: Seq<char>) -> bool {
    &&& is_compact(token)
    &&& decoded_token(token, secret) == Ok::<RawClaimsView, DecodeFailure>(raw_of(claims))
    &&& forall|other: Seq<char>|
        #![trigger decoded_token(token, other)]
        decoded_token(token, other) == Ok::<RawClaimsView, DecodeFailure>(raw_of(claims))
            || decoded_token(token, other) == Err::<RawClaimsView, DecodeFailure>(
            DecodeFailure::InvalidSignature,
        )
}

/// Calls `jsonwebtoken::encode` with the default header (HS256) on a JSON
/// object of the five claims, in the order sub, iss, exp, iat, role, and a
/// key made of the secret's bytes. The contract claims what the crate's
/// source shows. With a key made of a secret and the HS256 header no step
/// of encoding can fail: the key's family fits the header, header and
/// object serialise to JSON, and an HMAC is always computed. The token is
/// the base64url text of the header, of the payload and of the signature,
/// without padding, joined by two dots. Decoded under the same secret, it
/// gives back the same five members. Decoded under any other secret, the
/// only step that can go differently is the comparison of signatures, so
/// the result is the same payload or a signature mismatch.
#[verifier::external_body]
fn encode_signed(claims: &Claims, secret: &str) -> (r: Result<String, jsonwebtoken::errors::Error>)
    ensures
        r is Ok,
        r->Ok_0@ == signed_token(claims@, secret@),
        carries(r->Ok_0@, claims@, secret@),
{
    let mut payload = serde_json::Map::new();
    payload.insert("sub".to_string(), serde_json::Value::from(claims.sub.as_str()));
    payload.insert("iss".to_string(), serde_json::Value::from(claims.iss.as_str()));
    payload.insert("exp".to_string(), serde_json::Value::from(claims.exp));
    payload.insert("iat".to_string(), serde_json::Value::from(claims.iat));
    payload.insert("role".to_string(), serde_json::Value::from(claims.role.as_str()));
    let key = jsonwebtoken::EncodingKey::from_secret(secret.as_bytes());
    jsonwebtoken::encode(&jsonwebtoken::Header::default(), &payload, &key)
}

/// Calls `jsonwebtoken::decode` with the default validation (HS256, `exp`
/// required) but without its expiry check, and reads the five members from
/// the payload. The contract names the result. It adds one fact that the
/// decoder's first step shows: text without a dot is refused as not having
/// the shape of a token.
#[verifier::external_body]
fn decode_signed(token: &str, secret: &str) -> (r: Result<RawClaims, jsonwebtoken::errors::Error>)
    ensures
        match r {
            Ok(raw) => decoded_token(token@, secret@) == Ok::<RawClaimsView, DecodeFailure>(raw@)
                && token@.contains('.'),
            Err(error) => decoded_token(token@, secret@) == Err::<RawClaimsView, DecodeFailure>(
                failure_kind(error),
            ) && (!token@.contains('.') ==> failure_kind(error) == DecodeFailure::InvalidToken),
        },
{
    let key = jsonwebtoken::DecodingKey::from_secret(secret.as_bytes());
    let mut rules = jsonwebtoken::Validation::default();
    rules.validate_exp = false;
    let payload = jsonwebtoken::decode::<serde_json::Value>(token, &key, &rules)?.claims;
    Ok(RawClaims {
        sub: payload["sub"].as_str().map(String::from),
        iss: payload["iss"].as_str().map(String::from),
        exp: payload["exp"].as_u64(),
        iat: payload["iat"].as_u64(),
        role: payload["role"].as_str().map(String::from),
    })
}

/// Calls `jsonwebtoken::errors::Error::kind` and maps the variant to the
/// library's own enum, one for one; the variants that speak of a key or an
/// algorithm that cannot be used fall under `Other`.
#[verifier::external_body]
fn kind_of(error: &jsonwebtoken::errors::Error) -> (failure: DecodeFailure)
    ensures
        failure == failure_kind(*error),
{
    match error.kind() {
        ErrorKind::InvalidToken => DecodeFailure::InvalidToken,
        ErrorKind::InvalidSignature => DecodeFailure::InvalidSignature,
        ErrorKind::MissingRequiredClaim(_) => DecodeFailure::MissingRequiredClaim,
        ErrorKind::ExpiredSignature => DecodeFailure::ExpiredSignature,
        ErrorKind::InvalidAlgorithm => DecodeFailure::InvalidAlgorithm,
        ErrorKind::Base64(_) => DecodeFailure::Base64,
        ErrorKind::Json(_) => DecodeFailure::Json,
        ErrorKind::Utf8(_) => DecodeFailure::Utf8,
        ErrorKind::InvalidIssuer => DecodeFailure::InvalidIssuer,
        ErrorKind::InvalidAudience => DecodeFailure::InvalidAudience,
        ErrorKind::InvalidSubject => DecodeFailure::InvalidSubject,
        ErrorKind::ImmatureSignature => DecodeFailure::ImmatureSignature,
        _ => DecodeFailure::Other,
    }
}

/// The failure that the caller sees for each kind of decoding failure: a
/// token that is malformed, wrongly signed, or whose claims the decoder
/// does not accept is invalid; one that the decoder found expired is
/// expired; anything else is internal.
pub open spec fn failure_error(failure: DecodeFailure) -> AuthError {
    match failure {
        DecodeFailure::ExpiredSignature => AuthError::ExpiredToken,
        DecodeFailure::Other => AuthError::InternalError,
        _ => AuthError::InvalidToken,
    }
}

/// The outcome of validating at second `now` a token that decoded as given:
/// a decoding failure is mapped; a payload that lacks a member is invalid;
/// claims whose expiry lies before `now` are expired; all others are
/// handed out unchanged. No leeway is granted.
pub open spec fn validation_of(decoded: Result<RawClaimsView, DecodeFailure>, now: nat) -> Result<
    ClaimsView,
    AuthError,
> {
    match decoded {
        Err(failure) => Err(failure_error(failure)),
        Ok(raw) => match claims_of(raw) {
            None => Err(AuthError::InvalidToken),
            Some(claims) => if claims.exp < now {
                Err(AuthError::ExpiredToken)
            } else {
                Ok(claims)
            },
        },
    }
}

/// The mathematical form of a validation's outcome.
pub open spec fn outcome_view(outcome: Result<Claims, AuthError>) -> Result<ClaimsView, AuthError> {
    match outcome {
        Ok(claims) => Ok(claims@),
        Err(error) => Err(error),
    }
}

/// The mathematical form of a decoding's result.
pub open spec fn decoding_view(decoded: Result<RawClaims, DecodeFailure>) -> Result<
    RawClaimsView,
    DecodeFailure,
> {
    match decoded {
        Ok(raw) => Ok(raw@),
        Err(failure) => Err(failure),
    }
}

impl DecodeFailure {
    /// The failure that the caller sees.
    pub fn to_error(&self) -> (error: AuthError)
        ensures
            error == failure_error(*self),
    {
        match self {
            DecodeFailure::ExpiredSignature => AuthError::ExpiredToken,
            DecodeFailure::Other => AuthError::InternalError,
            _ => AuthError::InvalidToken,
        }
    }
}

impl RawClaims {
    /// The payload that holds exactly the given claims.
    pub fn from_claims(claims: Claims) -> (raw: RawClaims)
        ensures
            raw@ == raw_of(claims@),
            claims_of(raw@) == Some(claims@),
    {
        RawClaims {
            sub: Some(claims.sub),
            iss: Some(claims.iss),
            exp: Some(claims.exp as u64),
            iat: Some(claims.iat as u64),
            role: Some(claims.role),
        }
    }

    /// The claims that the payload holds, if it holds all of them.
    pub fn into_claims(self) -> (claims: Option<Claims>)
        ensures
            match claims {
                Some(c) => claims_of(self@) == Some(c@),
                None => claims_of(self@) is None,
            },
    {
        let RawClaims { sub, iss, exp, iat, role } = self;
        match (sub, iss, exp, iat, role) {
            (Some(sub), Some(iss), Some(exp), Some(iat), Some(role)) => {
                if exp > usize::MAX as u64 || iat > usize::MAX as u64 {
                    None
                } else {
                    Some(Claims { sub, iss, exp: exp as usize, iat: iat as usize, role })
                }
            },
            _ => None,
        }
    }
}

/// Decides the outcome of a validation at second `now` from what decoding
/// returned.
pub fn check_decoded(decoded: Result<RawClaims, DecodeFailure>, now: usize) -> (outcome: Result<
    Claims,
    AuthError,
>)
    ensures
        outcome_view(outcome) == validation_of(decoding_view(decoded), now as nat),
{
    match decoded {
        Err(failure) => Err(failure.to_error()),
        Ok(raw) => match raw.into_claims() {
            None => Err(AuthError::InvalidToken),
            Some(claims) => {
                if claims.exp < now {
                    Err(AuthError::ExpiredToken)
                } else {
                    Ok(claims)
                }
            },
        },
    }
}

/// Issues a token for the claims, signed with the secret. Nothing is
/// checked of the claims. Issuing with a secret does not fail, and the
/// token that comes back has the compact form and carries the claims: see
/// the laws on validating it.
pub fn create_jwt(claims: Claims, secret: &str) -> (r: Result<String, AuthError>)
    ensures
        r matches Ok(token) && token@ == signed_token(claims@, secret@) && carries(
            token@,
            claims@,
            secret@,
        ),
{
    match encode_signed(&claims, secret) {
        Ok(token) => Ok(token),
        Err(_) => Err(AuthError::InternalError),
    }
}

/// Validates a token under the secret at second `now`: checks the
/// signature, reads the claims, then checks the expiry against `now`.
pub fn validate_jwt_at(token: &str, secret: &str, now: usize) -> (outcome: Result<
    Claims,
    AuthError,
>)
    ensures
        outcome_view(outcome) == validation_of(decoded_token(token@, secret@), now as nat),
        !token@.contains('.') ==> outcome_view(outcome) == Err::<ClaimsView, AuthError>(
            AuthError::InvalidToken,
        ),
{
    let decoded: Result<RawClaims, DecodeFailure> = match decode_signed(token, secret) {
        Ok(raw) => Ok(raw),
        Err(error) => Err(kind_of(&error)),
    };
    check_decoded(decoded, now)
}

/// Validates a token under the secret at the current second.
pub fn validate_jwt(token: &str, secret: &str) -> (outcome: Result<Claims, AuthError>)
    ensures
        exists|now: nat|
            now <= LATEST_ISSUE && outcome_view(outcome) == #[trigger] validation_of(
                decoded_token(token@, secret@),
                now,
            ),
        !token@.contains('.') ==> outcome_view(outcome) == Err::<ClaimsView, AuthError>(
            AuthError::InvalidToken,
        ),
{
    let now: usize = unix_now();
    let outcome = validate_jwt_at(token, secret, now);
    assert(outcome_view(outcome) == validation_of(decoded_token(token@, secret@), now as nat));
    outcome
}

/// A text of the compact form is made of token characters, holds a dot,
/// and does not begin with a dot or end in one.
pub proof fn lemma_compact_shape(token: Seq<char>)
    requires
        is_compact(token),
    ensures
        is_wire_text(token),
        token.contains('.'),
        token.len() >= 5,
        token[0] != '.',
        token[token.len() - 1] != '.',
{
    let (header, payload, signature) = choose|
        header: Seq<char>,
        payload: Seq<char>,
        signature: Seq<char>,
    |
        is_segment(header) && is_segment(payload) && is_segment(signature) && #[trigger] compact_form(
            header,
            payload,
            signature,
        ) == token;
    let dot = seq!['.'];
    assert(token == header + dot + payload + dot + signature);
    assert(dot.len() == 1 && dot[0] == '.');
    assert(token[header.len() as int] == '.');
    assert(token[0] == header[0]);
    assert(token[token.len() - 1] == signature[signature.len() - 1]);
    assert forall|i: int| 0 <= i < token.len() implies is_wire_char(#[trigger] token[i]) by {
        let a = header.len();
        let b = a + 1 + payload.len();
        if i < a {
            assert(token[i] == header[i]);
        } else if i == a {
        } else if i < b {
            assert(token[i] == payload[i - a - 1]);
        } else if i == b {
            assert(token[i] == '.');
        } else {
            assert(token[i] == signature[i - b - 1]);
        }
    }
}

/// Whether claims fit the machine's word, as the claims of every token do.
pub open spec fn fits(claims: ClaimsView) -> bool {
    claims.exp <= usize::MAX && claims.iat <= usize::MAX
}

/// A token validated under the secret it was issued with, at any second up
/// to and including its expiry, gives back exactly the claims it was issued
/// for.
pub proof fn lemma_issue_validate_round_trip(
    token: Seq<char>,
    claims: ClaimsView,
    secret: Seq<char>,
    now: nat,
)
    requires
        fits(claims),
        carries(token, claims, secret),
        now <= claims.exp,
    ensures
        validation_of(decoded_token(token, secret), now) == Ok::<ClaimsView, AuthError>(claims),
{
}

/// A token validated after its expiry under the secret it was issued with
/// is reported as expired, never as invalid.
pub proof fn lemma_expired_after_expiry(
    token: Seq<char>,
    claims: ClaimsView,
    secret: Seq<char>,
    now: nat,
)
    requires
        fits(claims),
        carries(token, claims, secret),
        now > claims.exp,
    ensures
        validation_of(decoded_token(token, secret), now) == Err::<ClaimsView, AuthError>(
            AuthError::ExpiredToken,
        ),
{
}

/// A token validated under a secret that its signature does not match is
/// reported as invalid, at every second. (Two secrets can be one and the
/// same signing key; under such a secret the signature matches.)
pub proof fn lemma_other_secret_invalid(
    token: Seq<char>,
    claims: ClaimsView,
    secret: Seq<char>,
    other: Seq<char>,
    now: nat,
)
    requires
        carries(token, claims, secret),
        !(decoded_token(token, other) is Ok),
    ensures
        validation_of(decoded_token(token, other), now) == Err::<ClaimsView, AuthError>(
            AuthError::InvalidToken,
        ),
{
    assert(decoded_token(token, other) == Ok::<RawClaimsView, DecodeFailure>(raw_of(claims))
        || decoded_token(token, other) == Err::<RawClaimsView, DecodeFailure>(
        DecodeFailure::InvalidSignature,
    ));
}

/// Under whatever secret and at whatever second a token is validated, the
/// outcome is one of three: the claims it was issued for, expired, or
/// invalid. No secret makes it yield other claims or an internal error.
pub proof fn lemma_issued_token_outcomes(
    token: Seq<char>,
    claims: ClaimsView,
    secret: Seq<char>,
    other: Seq<char>,
    now: nat,
)
    requires
        fits(claims),
        carries(token, claims, secret),
    ensures
        ({
            let outcome = validation_of(decoded_token(token, other), now);
            outcome == Ok::<ClaimsView, AuthError>(claims) || outcome == Err::<
                ClaimsView,
                AuthError,
            >(AuthError::ExpiredToken) || outcome == Err::<ClaimsView, AuthError>(
                AuthError::InvalidToken,
            )
        }),
{
    assert(decoded_token(token, other) == Ok::<RawClaimsView, DecodeFailure>(raw_of(claims))
        || decoded_token(token, other) == Err::<RawClaimsView, DecodeFailure>(
        DecodeFailure::InvalidSignature,
    ));
}

/// Expiry is final: a token that was found expired is found expired at
/// every later second.
pub proof fn lemma_expiry_is_final(
    decoded: Result<RawClaimsView, DecodeFailure>,
    first: nat,
    second: nat,
)
    requires
        validation_of(decoded, first) == Err::<ClaimsView, AuthError>(AuthError::ExpiredToken),
        first <= second,
    ensures
        validation_of(decoded, second) == Err::<ClaimsView, AuthError>(AuthError::ExpiredToken),
{
}

/// Whether a token is invalid does not depend on the time: if it is found
/// invalid at one second, it is found invalid at every other.
pub proof fn lemma_invalid_at_all_times(
    decoded: Result<RawClaimsView, DecodeFailure>,
    first: nat,
    second: nat,
)
    requires
        validation_of(decoded, first) == Err::<ClaimsView, AuthError>(AuthError::InvalidToken),
    ensures
        validation_of(decoded, second) == Err::<ClaimsView, AuthError>(AuthError::InvalidToken),
{
}

/// Validating again at the same or an earlier second a token that
/// validated gives the same claims.
pub proof fn lemma_validation_repeatable(
    decoded: Result<RawClaimsView, DecodeFailure>,
    first: nat,
    second: nat,
)
    requires
        validation_of(decoded, first) is Ok,
        second <= first,
    ensures
        validation_of(decoded, second) == validation_of(decoded, first),
{
}

} // verus!
