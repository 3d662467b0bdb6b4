//! The login flow: from submitted credentials to a token.
//!
//! The flow asks the user store twice. `login_start` and `after_reset` name
//! the two requests; `user` takes the store's answer to the second and
//! decides the outcome.

use vstd::prelude::*;
use crate::claims::{claims_at, Claims, ClaimsView, TOKEN_LIFETIME};
use crate::clock::{unix_now, LATEST_ISSUE};
use crate::errors::{status_of, AuthError};
use crate::guard::{guard_step_of, lemma_guard_admits, Enforcement, GuardStepView};
use crate::jwt::{
    carries, create_jwt, decoded_token, lemma_compact_shape, lemma_issue_validate_round_trip,
    signed_token,
    validation_of,
};
use crate::roles::{
    is_role_name, lemma_role_named_total, lemma_role_round_trip, role_name, role_named,
};
use crate::user::{summary_of, AccountSummary, AccountSummaryView, Lookup, LookupView, User, UserView};

verus! {

/// `bcrypt::BcryptError`, the failure of a password check.
#[verifier::external_type_specification]
#[verifier::external_body]
pub struct ExHashError(bcrypt::BcryptError);

/// The credentials that a caller submits.
#[derive(Debug, Clone, PartialEq, Eq)]
pub struct LoginPayload {
    pub email: String,
    pub password: String,
}

/// A request to the user store.
#[derive(Debug, Clone, PartialEq, Eq)]
pub enum StoreRequest {
    /// Set the MFA-verified flag of the account with this email to false.
    ResetMfa { email: String },
    /// Fetch the account with this email.
    FindAccount { email: String },
}

/// A store request in mathematical form.
pub enum StoreRequestView {
    ResetMfa { email: Seq<char> },
    FindAccount { email: Seq<char> },
}

impl View for StoreRequest {
    type V = StoreRequestView;

    open spec fn view(&self) -> StoreRequestView {
        match self {
            StoreRequest::ResetMfa { email } => StoreRequestView::ResetMfa { email: email@ },
            StoreRequest::FindAccount { email } => StoreRequestView::FindAccount { email: email@ },
        }
    }
}

/// What a successful login returns: the account without its credential
/// fields, and the token.
#[derive(Debug, Clone, PartialEq, Eq)]
pub struct LoginSuccess {
    pub user: AccountSummary,
    pub token: String,
}

/// A successful login in mathematical form.
pub struct LoginSuccessView {
    pub user: AccountSummaryView,
    pub token: Seq<char>,
}

impl View for LoginSuccess {
    type V = LoginSuccessView;

    open spec fn view(&self) -> LoginSuccessView {
        LoginSuccessView { user: self.user@, token: self.token@ }
    }
}

/// The mathematical form of a login's outcome.
pub open spec fn login_view(outcome: Result<LoginSuccess, AuthError>) -> Result<
    LoginSuccessView,
    AuthError,
> {
    match outcome {
        Ok(success) => Ok(success@),
        Err(error) => Err(error),
    }
}

/// The name under which this service issues tokens.
pub open spec fn issuer_name() -> Seq<char> {
    "Thusa Managed Executive Reports API."@
}

/// The claims issued to an account at second `now`: the email as subject
/// and the canonical name of the account's role.
pub open spec fn login_claims(user: UserView, now: nat) -> ClaimsView {
    claims_at(user.email, issuer_name(), role_named(user.role), now)
}

/// What `bcrypt::verify` returns for a password and a stored hash: whether
/// they match, or `None` where the hash cannot be read.
pub uninterp spec fn password_verdict(password: Seq<char>, hash: Seq<char>) -> Option<bool>;

/// Calls `bcrypt::verify`, which hashes the password with the cost and the
/// salt found in the stored hash and compares. The contract names the result.
#[verifier::external_body]
fn verify_password(password: &str, hash: &str) -> (r: Result<bool, bcrypt::BcryptError>)
    ensures
        match r {
            Ok(matches) => password_verdict(password@, hash@) == Some(matches),
            Err(_) => password_verdict(password@, hash@) is None,
        },
{
    bcrypt::verify(password, hash)
}

/// The account that may log in, from the store's answer: a store that
/// failed is an internal error, a missing account is not found, and a
/// deactivated account is refused before its password is looked at.
pub open spec fn screened(lookup: LookupView) -> Result<UserView, AuthError> {
    match lookup {
        LookupView::Failed => Err(AuthError::InternalError),
        LookupView::Missing => Err(AuthError::AccountNotFound),
        LookupView::Found(user) => if user.active {
            Ok(user)
        } else {
            Err(AuthError::AccountInactive)
        },
    }
}

/// The failure, if any, that follows from a password check.
pub open spec fn password_failure(verdict: Option<bool>) -> Option<AuthError> {
    match verdict {
        None => Some(AuthError::InternalError),
        Some(false) => Some(AuthError::CredentialMismatch),
        Some(true) => None,
    }
}

/// The end of a login whose account and password were accepted, from what
/// signing returned.
pub open spec fn granted(user: UserView, token: Option<Seq<char>>) -> Result<
    LoginSuccessView,
    AuthError,
> {
    match token {
        Some(text) => Ok(LoginSuccessView { user: summary_of(user), token: text }),
        None => Err(AuthError::InternalError),
    }
}

/// The outcome of a login at second `now`.
pub open spec fn login_outcome(
    password: Seq<char>,
    lookup: LookupView,
    secret: Seq<char>,
    now: nat,
) -> Result<LoginSuccessView, AuthError> {
    match screened(lookup) {
        Err(error) => Err(error),
        Ok(user) => match password_failure(password_verdict(password, user.password)) {
            Some(error) => Err(error),
            None => granted(user, Some(signed_token(login_claims(user, now), secret))),
        },
    }
}

/// The status code that answers a login: 200 for a success, and for a
/// failure the status of that failure.
pub open spec fn login_status_of(outcome: Result<LoginSuccessView, AuthError>) -> nat {
    match outcome {
        Ok(_) => 200,
        Err(error) => status_of(error),
    }
}

/// The mathematical form of a screening's result.
pub open spec fn screening_view(result: Result<User, AuthError>) -> Result<UserView, AuthError> {
    match result {
        Ok(user) => Ok(user@),
        Err(error) => Err(error),
    }
}

/// The mathematical form of an optional token.
pub open spec fn token_text(token: Option<String>) -> Option<Seq<char>> {
    match token {
        Some(text) => Some(text@),
        None => None,
    }
}

/// The first request of a login: the MFA-verified flag of the submitted
/// email is reset before anything is checked.
pub fn login_start(payload: &LoginPayload) -> (request: StoreRequest)
    ensures
        request@ == (StoreRequestView::ResetMfa { email: payload.email@ }),
{
    StoreRequest::ResetMfa { email: payload.email.clone() }
}

/// What follows the reset: the account is fetched, unless the store failed.
pub fn after_reset(payload: &LoginPayload, reset_done: bool) -> (next: Result<
    StoreRequest,
    AuthError,
>)
    ensures
        reset_done ==> next is Ok && next->Ok_0@ == (StoreRequestView::FindAccount {
            email: payload.email@,
        }),
        !reset_done ==> next == Err::<StoreRequest, AuthError>(AuthError::InternalError),
{
    if reset_done {
        Ok(StoreRequest::FindAccount { email: payload.email.clone() })
    } else {
        Err(AuthError::InternalError)
    }
}

/// Screens the store's answer for an account that may log in.
pub fn screen(lookup: Lookup) -> (result: Result<User, AuthError>)
    ensures
        screening_view(result) == screened(lookup@),
{
    match lookup {
        Lookup::Failed => Err(AuthError::InternalError),
        Lookup::Missing => Err(AuthError::AccountNotFound),
        Lookup::Found(user) => {
            if user.active {
                Ok(user)
            } else {
                Err(AuthError::AccountInactive)
            }
        },
    }
}

/// Checks a submitted password against a stored hash.
pub fn check_password(password: &str, hash: &str) -> (failure: Option<AuthError>)
    ensures
        failure == password_failure(password_verdict(password@, hash@)),
{
    let verdict: Option<bool> = match verify_password(password, hash) {
        Ok(matches) => Some(matches),
        Err(_) => None,
    };
    judge_password(verdict)
}

/// The failure, if any, that follows from a password check.
pub fn judge_password(verdict: Option<bool>) -> (failure: Option<AuthError>)
    ensures
        failure == password_failure(verdict),
{
    match verdict {
        None => Some(AuthError::InternalError),
        Some(false) => Some(AuthError::CredentialMismatch),
        Some(true) => None,
    }
}

/// The claims issued to an account at second `now`.
pub fn claims_for(user: &User, now: usize) -> (claims: Claims)
    requires
        now <= LATEST_ISSUE,
    ensures
        claims@ == login_claims(user@, now as nat),
{
    Claims::issue(
        user.email.clone(),
        "Thusa Managed Executive Reports API.".to_owned(),
        user.role(),
        now,
    )
}

/// Ends a login whose account and password were accepted.
pub fn grant(user: User, token: Option<String>) -> (outcome: Result<LoginSuccess, AuthError>)
    ensures
        login_view(outcome) == granted(user@, token_text(token)),
{
    match token {
        Some(text) => Ok(LoginSuccess { user: user.summary(), token: text }),
        None => Err(AuthError::InternalError),
    }
}

/// The status code that answers a login.
pub fn login_status(outcome: &Result<LoginSuccess, AuthError>) -> (code: u16)
    ensures
        code as nat == login_status_of(login_view(*outcome)),
{
    match outcome {
        Ok(_) => 200,
        Err(error) => error.status(),
    }
}

/// Decides a login at second `now` from the store's answer. The token of a
/// successful login carries the claims of the account.
pub fn login_at(payload: &LoginPayload, lookup: Lookup, secret: &str, now: usize) -> (outcome:
    Result<LoginSuccess, AuthError>)
    requires
        now <= LATEST_ISSUE,
    ensures
        login_view(outcome) == login_outcome(payload.password@, lookup@, secret@, now as nat),
        outcome matches Ok(success) ==> lookup@ matches LookupView::Found(account) && carries(
            success.token@,
            login_claims(account, now as nat),
            secret@,
        ),
{
    let user: User = match screen(lookup) {
        Ok(user) => user,
        Err(error) => {
            return Err(error);
        },
    };
    match check_password(payload.password.as_str(), user.password.as_str()) {
        Some(error) => {
            return Err(error);
        },
        None => {},
    }
    let claims = claims_for(&user, now);
    let token: Option<String> = match create_jwt(claims, secret) {
        Ok(text) => Some(text),
        Err(_) => None,
    };
    grant(user, token)
}

/// Decides a login at the current second from the store's answer.
pub fn user(payload: &LoginPayload, lookup: Lookup, secret: &str) -> (outcome: Result<
    LoginSuccess,
    AuthError,
>)
    ensures
        exists|now: nat|
            now <= LATEST_ISSUE && login_view(outcome) == #[trigger] login_outcome(
                payload.password@,
                lookup@,
                secret@,
                now,
            ),
        screened(lookup@) matches Err(error) ==> outcome == Err::<LoginSuccess, AuthError>(error),
        outcome matches Ok(success) ==> lookup@ matches LookupView::Found(account)
            && account.active && success.user@ == summary_of(account) && exists|now: nat|
            now <= LATEST_ISSUE && #[trigger] carries(
                success.token@,
                login_claims(account, now),
                secret@,
            ),
{
    let now: usize = unix_now();
    let outcome = login_at(payload, lookup, secret, now);
    assert(login_view(outcome) == login_outcome(payload.password@, lookup@, secret@, now as nat));
    proof {
        if outcome is Ok {
            let account = lookup@->Found_0;
            assert(carries(outcome->Ok_0.token@, login_claims(account, now as nat), secret@));
        }
    }
    outcome
}

/// The role embedded in the claims of a login is the account's role: the
/// two names stand for the same role, and are the same text where the
/// stored name is canonical.
pub proof fn lemma_login_role(user: UserView, now: nat)
    ensures
        role_named(login_claims(user, now).role) == role_named(user.role),
        is_role_name(user.role) ==> login_claims(user, now).role == user.role,
        login_claims(user, now).sub == user.email,
{
    lemma_role_named_total(user.role);
    lemma_role_round_trip(role_named(user.role));
}

/// The token of a login, presented to either guard with `Bearer ` before
/// it at any second until it expires a day after the login, validates to
/// claims that name the account's email and role, and takes the guard to
/// the lookup of that email.
pub proof fn lemma_login_token_admitted(
    mode: Enforcement,
    token: Seq<char>,
    account: UserView,
    secret: Seq<char>,
    issued: nat,
    now: nat,
)
    requires
        issued <= LATEST_ISSUE,
        carries(token, login_claims(account, issued), secret),
        now <= issued + TOKEN_LIFETIME,
    ensures
        validation_of(decoded_token(token, secret), now) == Ok::<ClaimsView, AuthError>(
            login_claims(account, issued),
        ),
        login_claims(account, issued).role == role_name(role_named(account.role)),
        guard_step_of(mode, Some("Bearer "@ + token), secret, now) == (GuardStepView::Lookup {
            email: account.email,
            role: role_name(role_named(account.role)),
        }),
{
    let claims = login_claims(account, issued);
    lemma_compact_shape(token);
    lemma_issue_validate_round_trip(token, claims, secret, now);
    lemma_guard_admits(mode, token, claims, secret, now);
}

/// A login to a deactivated account fails with status 401 whatever the
/// password, and a login with an unknown email with status 404.
pub proof fn lemma_login_refusals(
    password: Seq<char>,
    lookup: LookupView,
    secret: Seq<char>,
    now: nat,
)
    ensures
        lookup matches LookupView::Found(account) && !account.active ==> login_outcome(
            password,
            lookup,
            secret,
            now,
        ) == Err::<LoginSuccessView, AuthError>(AuthError::AccountInactive),
        lookup is Missing ==> login_outcome(password, lookup, secret, now) == Err::<
            LoginSuccessView,
            AuthError,
        >(AuthError::AccountNotFound),
        lookup is Failed ==> login_outcome(password, lookup, secret, now) == Err::<
            LoginSuccessView,
            AuthError,
        >(AuthError::InternalError),
        lookup matches LookupView::Found(account) && !account.active ==> login_status_of(
            login_outcome(password, lookup, secret, now),
        ) == 401,
        lookup is Missing ==> login_status_of(login_outcome(password, lookup, secret, now)) == 404,
        lookup is Failed ==> login_status_of(login_outcome(password, lookup, secret, now)) == 500,
{
}

/// A login with the right password to an active account succeeds: it is
/// answered with status 200, the summary of the account, and the token
/// signed for the account's claims.
pub proof fn lemma_login_granted(
    password: Seq<char>,
    account: UserView,
    secret: Seq<char>,
    now: nat,
)
    requires
        account.active,
        password_verdict(password, account.password) == Some(true),
    ensures
        login_outcome(password, LookupView::Found(account), secret, now) == Ok::<
            LoginSuccessView,
            AuthError,
        >(
            LoginSuccessView {
                user: summary_of(account),
                token: signed_token(login_claims(account, now), secret),
            },
        ),
        login_status_of(login_outcome(password, LookupView::Found(account), secret, now)) == 200,
{
}

/// A login succeeds only for an active account whose password matched. It
/// is then answered with status 200, the summary of that account, and the
/// token that signing gave for the account's claims.
pub proof fn lemma_login_success(
    password: Seq<char>,
    lookup: LookupView,
    secret: Seq<char>,
    now: nat,
)
    requires
        login_outcome(password, lookup, secret, now) is Ok,
    ensures
        lookup matches LookupView::Found(account) && account.active && password_verdict(
            password,
            account.password,
        ) == Some(true) && login_outcome(password, lookup, secret, now)->Ok_0.user == summary_of(
            account,
        ) && signed_token(login_claims(account, now), secret) == login_outcome(
            password,
            lookup,
            secret,
            now,
        )->Ok_0.token,
        login_status_of(login_outcome(password, lookup, secret, now)) == 200,
{
}

} // verus!
