//! The payload that a session token carries.

use vstd::prelude::*;
use crate::clock::{unix_now, LATEST_ISSUE};
use crate::roles::{role_name, role_named, Role};

verus! {

/// How long a token lives after it was issued, in seconds: one day.
pub const TOKEN_LIFETIME: usize = 86_400;

/// The signed payload of a token.
#[derive(Debug, Clone, PartialEq, Eq)]
pub struct Claims {
    /// Who the token speaks for: the account's email.
    pub sub: String,
    /// The service that issued the token.
    pub iss: String,
    /// The second at which the token expires.
    pub exp: usize,
    /// The second at which the token was issued.
    pub iat: usize,
    /// The display name of the role at the time of issue.
    pub role: String,
}

/// Claims in mathematical form.
pub struct ClaimsView {
    pub sub: Seq<char>,
    pub iss: Seq<char>,
    pub exp: nat,
    pub iat: nat,
    pub role: Seq<char>,
}

impl View for Claims {
    type V = ClaimsView;

    open spec fn view(&self) -> ClaimsView {
        ClaimsView {
            sub: self.sub@,
            iss: self.iss@,
            exp: self.exp as nat,
            iat: self.iat as nat,
            role: self.role@,
        }
    }
}

/// The claims issued at second `now` to `sub` by `iss` for a role.
pub open spec fn claims_at(sub: Seq<char>, iss: Seq<char>, role: Role, now: nat) -> ClaimsView {
    ClaimsView { sub, iss, exp: now + TOKEN_LIFETIME as nat, iat: now, role: role_name(role) }
}

/// The base claims at second `now`: nobody's, from no issuer, with the lowest role.
pub open spec fn default_claims_at(now: nat) -> ClaimsView {
    claims_at(Seq::empty(), Seq::empty(), Role::Customer, now)
}

/// Whether claims keep the fixed lifetime between issue and expiry.
pub open spec fn has_fixed_lifetime(claims: ClaimsView) -> bool {
    claims.exp == claims.iat + TOKEN_LIFETIME as nat
}

impl Claims {
    /// The claims issued at second `now` with the fixed lifetime. Nothing is
    /// checked of the subject or the issuer: either may be empty.
    pub fn issue(sub: String, iss: String, role: Role, now: usize) -> (claims: Claims)
        requires
            now <= LATEST_ISSUE,
        ensures
            claims@ == claims_at(sub@, iss@, role, now as nat),
            has_fixed_lifetime(claims@),
    {
        Claims { sub, iss, exp: now + TOKEN_LIFETIME, iat: now, role: role.to_string() }
    }

    /// The base claims at second `now`.
    pub fn default_at(now: usize) -> (claims: Claims)
        requires
            now <= LATEST_ISSUE,
        ensures
            claims@ == default_claims_at(now as nat),
            has_fixed_lifetime(claims@),
    {
        Claims::issue(String::new(), String::new(), Role::Customer, now)
    }

    /// The role that the claims name; an unknown name counts as `Customer`.
    pub fn role(&self) -> (role: Role)
        ensures
            role == role_named(self@.role),
    {
        Role::from_name(self.role.as_str())
    }
}

impl Default for Claims {
    /// The base claims at the current second.
    fn default() -> (claims: Claims)
        ensures
            exists|now: nat| now <= LATEST_ISSUE && #[trigger] default_claims_at(now) == claims@,
            has_fixed_lifetime(claims@),
    {
        let now: usize = unix_now();
        let claims = Claims::default_at(now);
        assert(default_claims_at(now as nat) == claims@);
        claims
    }
}

} // verus!
