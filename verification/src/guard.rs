//! The guards that stand before the protected handlers.
//!
//! A guard works in two steps around the one thing it cannot do itself,
//! asking the user store. `jwt_guard` and `jwt_guard_optional` read the
//! header and validate the token; `resolve` turns the store's answer into
//! the identity that is attached to the request.

use vstd::prelude::*;
use vstd::string::*;
use crate::clock::{unix_now, LATEST_ISSUE};
use crate::errors::{status_of, AuthError};
use crate::claims::ClaimsView;
use crate::jwt::{decoded_token, is_wire_char, is_wire_text, validate_jwt_at, validation_of};
use crate::text::{has_prefix, starts_with};
use crate::user::{Lookup, LookupView, User, UserView};

verus! {

/// Whether a guard insists on a token.
#[derive(Debug, Clone, Copy, PartialEq, Eq, Hash, Structural)]
pub enum Enforcement {
    /// Every request is validated, also one without the header.
    Required,
    /// A request without the header passes with no identity.
    Optional,
}

/// What a guard does after it has read the header.
#[derive(Debug, Clone, PartialEq, Eq)]
pub enum GuardStep {
    /// Hand the request on with no identity attached.
    Forward,
    /// Ask the user store for the account with this email: a token
    /// validated, and named this subject and this role.
    Lookup { email: String, role: String },
    /// Refuse the request.
    Reject(AuthError),
}

/// A guard's step in mathematical form.
pub enum GuardStepView {
    Forward,
    Lookup { email: Seq<char>, role: Seq<char> },
    Reject(AuthError),
}

impl View for GuardStep {
    type V = GuardStepView;

    open spec fn view(&self) -> GuardStepView {
        match self {
            GuardStep::Forward => GuardStepView::Forward,
            GuardStep::Lookup { email, role } => GuardStepView::Lookup {
                email: email@,
                role: role@,
            },
            GuardStep::Reject(error) => GuardStepView::Reject(*error),
        }
    }
}

/// The identity that a guard attaches to a request.
#[derive(Debug, Clone, PartialEq, Eq)]
pub enum Identity {
    /// Attached by the mandatory guard: the account itself.
    Account(User),
    /// Attached by the optional guard: the account, wrapped as present.
    OptionalAccount(Option<User>),
}

/// An identity in mathematical form.
pub enum IdentityView {
    Account(UserView),
    OptionalAccount(Option<UserView>),
}

impl View for Identity {
    type V = IdentityView;

    open spec fn view(&self) -> IdentityView {
        match self {
            Identity::Account(user) => IdentityView::Account(user@),
            Identity::OptionalAccount(Some(user)) => IdentityView::OptionalAccount(Some(user@)),
            Identity::OptionalAccount(None) => IdentityView::OptionalAccount(None),
        }
    }
}

/// The end of a guard's work on a request that carried a valid token.
#[derive(Debug, Clone, PartialEq, Eq)]
pub enum Verdict {
    /// Attach the identity and run the handler.
    Admit(Identity),
    /// Refuse the request.
    Refuse(AuthError),
}

/// A verdict in mathematical form.
pub enum VerdictView {
    Admit(IdentityView),
    Refuse(AuthError),
}

impl View for Verdict {
    type V = VerdictView;

    open spec fn view(&self) -> VerdictView {
        match self {
            Verdict::Admit(identity) => VerdictView::Admit(identity@),
            Verdict::Refuse(error) => VerdictView::Refuse(*error),
        }
    }
}

/// The characters of an optional header value.
pub open spec fn header_text(header: Option<&str>) -> Option<Seq<char>> {
    match header {
        Some(value) => Some(value@),
        None => None,
    }
}

/// The token in a header value: the value without a leading `Bearer `.
/// Only a leading occurrence is removed.
pub open spec fn bearer_value(header: Seq<char>) -> Seq<char> {
    if starts_with(header, "Bearer "@) {
        header.subrange(7, header.len() as int)
    } else {
        header
    }
}

/// The token that a guard validates, if it validates one: the mandatory
/// guard reads an absent header as an empty token, the optional guard
/// validates nothing then.
pub open spec fn presented_token(mode: Enforcement, header: Option<Seq<char>>) -> Option<
    Seq<char>,
> {
    match header {
        Some(value) => Some(bearer_value(value)),
        None => match mode {
            Enforcement::Required => Some(bearer_value(Seq::empty())),
            Enforcement::Optional => None,
        },
    }
}

/// The step of a guard at second `now`.
pub open spec fn guard_step_of(
    mode: Enforcement,
    header: Option<Seq<char>>,
    secret: Seq<char>,
    now: nat,
) -> GuardStepView {
    match presented_token(mode, header) {
        None => GuardStepView::Forward,
        Some(token) => match validation_of(decoded_token(token, secret), now) {
            Ok(claims) => GuardStepView::Lookup { email: claims.sub, role: claims.role },
            Err(error) => GuardStepView::Reject(error),
        },
    }
}

/// The verdict that follows from the store's answer: the account is
/// attached, bare under the mandatory guard and wrapped under the optional
/// one; an account that is gone and a store that failed are both an
/// internal error.
pub open spec fn verdict_of(mode: Enforcement, lookup: LookupView) -> VerdictView {
    match lookup {
        LookupView::Found(user) => VerdictView::Admit(
            match mode {
                Enforcement::Required => IdentityView::Account(user),
                Enforcement::Optional => IdentityView::OptionalAccount(Some(user)),
            },
        ),
        _ => VerdictView::Refuse(AuthError::InternalError),
    }
}

/// An empty header value holds an empty token, which has no dot in it.
pub proof fn lemma_empty_token()
    ensures
        bearer_value(Seq::empty()) == Seq::<char>::empty(),
        !bearer_value(Seq::empty()).contains('.'),
        ""@ == Seq::<char>::empty(),
{
    reveal_strlit("Bearer ");
    reveal_strlit("");
    assert(""@ =~= Seq::<char>::empty());
}

/// Takes the token out of a header value.
pub fn bearer_token(header: &str) -> (token: String)
    ensures
        token@ == bearer_value(header@),
{
    proof {
        reveal_strlit("Bearer ");
    }
    if has_prefix(header, "Bearer ") {
        let n: usize = header.unicode_len();
        header.substring_char(7, n).to_owned()
    } else {
        header.to_owned()
    }
}

/// The first step of a guard at second `now`: reads the header, validates
/// the token and names the account to look up. A mandatory guard refuses a
/// request without the header exactly as it refuses one with an empty
/// header: as an invalid token.
pub fn guard_at(mode: Enforcement, header: Option<&str>, secret: &str, now: usize) -> (step:
    GuardStep)
    ensures
        step@ == guard_step_of(mode, header_text(header), secret@, now as nat),
        presented_token(mode, header_text(header)) matches Some(token) && !token.contains('.')
            ==> step@ == GuardStepView::Reject(AuthError::InvalidToken),
        mode == Enforcement::Required && (header is None || header_text(header) == Some(
            Seq::<char>::empty(),
        )) ==> step@ == GuardStepView::Reject(AuthError::InvalidToken),
{
    proof {
        lemma_empty_token();
    }
    let token: String = match header {
        Some(value) => bearer_token(value),
        None => match mode {
            Enforcement::Required => bearer_token(""),
            Enforcement::Optional => {
                return GuardStep::Forward;
            },
        },
    };
    match validate_jwt_at(token.as_str(), secret, now) {
        Ok(claims) => GuardStep::Lookup { email: claims.sub, role: claims.role },
        Err(error) => GuardStep::Reject(error),
    }
}

/// The mandatory guard's first step, at the current second.
pub fn jwt_guard(header: Option<&str>, secret: &str) -> (step: GuardStep)
    ensures
        exists|now: nat|
            now <= LATEST_ISSUE && step@ == #[trigger] guard_step_of(
                Enforcement::Required,
                header_text(header),
                secret@,
                now,
            ),
        !(step@ is Forward),
        !bearer_value(
            match header {
                Some(value) => value@,
                None => Seq::empty(),
            },
        ).contains('.') ==> step@ == GuardStepView::Reject(AuthError::InvalidToken),
        header is None || header_text(header) == Some(Seq::<char>::empty()) ==> step@
            == GuardStepView::Reject(AuthError::InvalidToken),
{
    let now: usize = unix_now();
    let step = guard_at(Enforcement::Required, header, secret, now);
    assert(step@ == guard_step_of(Enforcement::Required, header_text(header), secret@, now as nat));
    step
}

/// The optional guard's first step, at the current second.
pub fn jwt_guard_optional(header: Option<&str>, secret: &str) -> (step: GuardStep)
    ensures
        exists|now: nat|
            now <= LATEST_ISSUE && step@ == #[trigger] guard_step_of(
                Enforcement::Optional,
                header_text(header),
                secret@,
                now,
            ),
        header is None <==> step@ is Forward,
        header matches Some(value) && !bearer_value(value@).contains('.') ==> step@
            == GuardStepView::Reject(AuthError::InvalidToken),
{
    let now: usize = unix_now();
    let step = guard_at(Enforcement::Optional, header, secret, now);
    assert(step@ == guard_step_of(Enforcement::Optional, header_text(header), secret@, now as nat));
    step
}

/// The second step of a guard: turns the store's answer into the verdict.
pub fn resolve(mode: Enforcement, lookup: Lookup) -> (verdict: Verdict)
    ensures
        verdict@ == verdict_of(mode, lookup@),
{
    match lookup {
        Lookup::Found(user) => match mode {
            Enforcement::Required => Verdict::Admit(Identity::Account(user)),
            Enforcement::Optional => Verdict::Admit(Identity::OptionalAccount(Some(user))),
        },
        _ => Verdict::Refuse(AuthError::InternalError),
    }
}

/// Under the mandatory guard a request without the header is treated in
/// every respect as a request whose header is empty.
pub proof fn lemma_absent_header_as_empty(secret: Seq<char>, now: nat)
    ensures
        presented_token(Enforcement::Required, None) == presented_token(
            Enforcement::Required,
            Some(Seq::empty()),
        ),
        guard_step_of(Enforcement::Required, None, secret, now) == guard_step_of(
            Enforcement::Required,
            Some(Seq::empty()),
            secret,
            now,
        ),
        !(guard_step_of(Enforcement::Required, None, secret, now) is Forward),
{
}

/// Under the optional guard a request without the header is handed on with
/// no identity; one with a header is never handed on unvalidated: it is
/// refused with the failure of its validation, or leads to a lookup.
pub proof fn lemma_optional_guard(header: Option<Seq<char>>, secret: Seq<char>, now: nat)
    ensures
        header is None ==> guard_step_of(Enforcement::Optional, header, secret, now)
            == GuardStepView::Forward,
        header is Some ==> guard_step_of(Enforcement::Optional, header, secret, now)
            == guard_step_of(Enforcement::Required, header, secret, now),
        header is Some ==> !(guard_step_of(Enforcement::Optional, header, secret, now) is Forward),
        header matches Some(value) ==> (validation_of(
            decoded_token(bearer_value(value), secret),
            now,
        ) matches Err(error) ==> guard_step_of(Enforcement::Optional, header, secret, now)
            == GuardStepView::Reject(error)),
{
}

/// A text made of token characters is its own token, with or without
/// `Bearer ` before it.
pub proof fn lemma_bearer_of_wire_text(token: Seq<char>)
    requires
        is_wire_text(token),
    ensures
        bearer_value(token) == token,
        bearer_value("Bearer "@ + token) == token,
{
    reveal_strlit("Bearer ");
    let prefix = "Bearer "@;
    assert(prefix[6] == ' ');
    if starts_with(token, prefix) {
        assert(token.subrange(0, 7)[6] == token[6]);
        assert(is_wire_char(token[6]));
    }
    let header = prefix + token;
    assert(header.subrange(0, 7) =~= prefix);
    assert(header.subrange(7, header.len() as int) =~= token);
}

/// Both guards take a request that presents a valid token, with or
/// without `Bearer ` before it, to the lookup of the token's subject.
pub proof fn lemma_guard_admits(
    mode: Enforcement,
    token: Seq<char>,
    claims: ClaimsView,
    secret: Seq<char>,
    now: nat,
)
    requires
        is_wire_text(token),
        validation_of(decoded_token(token, secret), now) == Ok::<ClaimsView, AuthError>(claims),
    ensures
        guard_step_of(mode, Some("Bearer "@ + token), secret, now) == (GuardStepView::Lookup {
            email: claims.sub,
            role: claims.role,
        }),
        guard_step_of(mode, Some(token), secret, now) == (GuardStepView::Lookup {
            email: claims.sub,
            role: claims.role,
        }),
{
    lemma_bearer_of_wire_text(token);
}

/// There is no partial success. A guard asks the store only after a token
/// has validated, and then for the subject of that token; it admits a
/// request only with the account that the store found; and the mandatory
/// guard never hands a request on without asking.
pub proof fn lemma_no_partial_success(
    mode: Enforcement,
    header: Option<Seq<char>>,
    secret: Seq<char>,
    now: nat,
    lookup: LookupView,
)
    ensures
        guard_step_of(mode, header, secret, now) matches GuardStepView::Lookup { email, role }
            ==> presented_token(mode, header) matches Some(token) && validation_of(
            decoded_token(token, secret),
            now,
        ) matches Ok(claims) && claims.sub == email && claims.role == role,
        verdict_of(mode, lookup) matches VerdictView::Admit(identity) ==> lookup matches LookupView::Found(
            user,
        ) && (identity == IdentityView::Account(user) || identity == IdentityView::OptionalAccount(
            Some(user),
        )),
        !(guard_step_of(Enforcement::Required, header, secret, now) is Forward),
{
}

/// A request that a guard refuses for its token is answered with status
/// 401, and one that it refuses for the store with status 500.
pub proof fn lemma_guard_statuses()
    ensures
        status_of(AuthError::InvalidToken) == 401,
        status_of(AuthError::ExpiredToken) == 401,
        status_of(AuthError::InternalError) == 500,
{
}

} // verus!
