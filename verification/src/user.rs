//! The account record as the authentication core reads it.

use vstd::prelude::*;
use crate::roles::{role_named, Role};

verus! {

/// An account of the user store. The identifier is the 128-bit value of the
/// stored UUID; the two times are microseconds since the Unix epoch.
#[derive(Debug, Clone, PartialEq, Eq)]
pub struct User {
    pub id: u128,
    pub email: String,
    /// The stored credential hash.
    pub password: String,
    pub role: String,
    pub active: bool,
    pub mfa_enabled: bool,
    pub mfa_secret: Option<String>,
    pub mfa_verified: bool,
    pub created_at: i64,
    pub updated_at: i64,
}

/// An account in mathematical form.
pub struct UserView {
    pub id: u128,
    pub email: Seq<char>,
    pub password: Seq<char>,
    pub role: Seq<char>,
    pub active: bool,
    pub mfa_enabled: bool,
    pub mfa_secret: Option<Seq<char>>,
    pub mfa_verified: bool,
    pub created_at: i64,
    pub updated_at: i64,
}

impl View for User {
    type V = UserView;

    open spec fn view(&self) -> UserView {
        UserView {
            id: self.id,
            email: self.email@,
            password: self.password@,
            role: self.role@,
            active: self.active,
            mfa_enabled: self.mfa_enabled,
            mfa_secret: match self.mfa_secret {
                Some(secret) => Some(secret@),
                None => None,
            },
            mfa_verified: self.mfa_verified,
            created_at: self.created_at,
            updated_at: self.updated_at,
        }
    }
}

/// What of an account is shown to its owner: everything but the credential
/// hash and the MFA secret.
#[derive(Debug, Clone, PartialEq, Eq)]
pub struct AccountSummary {
    pub id: u128,
    pub email: String,
    pub role: String,
    pub active: bool,
    pub mfa_enabled: bool,
    pub mfa_verified: bool,
    pub created_at: i64,
    pub updated_at: i64,
}

/// An account summary in mathematical form.
pub struct AccountSummaryView {
    pub id: u128,
    pub email: Seq<char>,
    pub role: Seq<char>,
    pub active: bool,
    pub mfa_enabled: bool,
    pub mfa_verified: bool,
    pub created_at: i64,
    pub updated_at: i64,
}

impl View for AccountSummary {
    type V = AccountSummaryView;

    open spec fn view(&self) -> AccountSummaryView {
        AccountSummaryView {
            id: self.id,
            email: self.email@,
            role: self.role@,
            active: self.active,
            mfa_enabled: self.mfa_enabled,
            mfa_verified: self.mfa_verified,
            created_at: self.created_at,
            updated_at: self.updated_at,
        }
    }
}

/// The summary of an account.
pub open spec fn summary_of(user: UserView) -> AccountSummaryView {
    AccountSummaryView {
        id: user.id,
        email: user.email,
        role: user.role,
        active: user.active,
        mfa_enabled: user.mfa_enabled,
        mfa_verified: user.mfa_verified,
        created_at: user.created_at,
        updated_at: user.updated_at,
    }
}

/// What the user store answers when asked for the account of an email.
#[derive(Debug, Clone, PartialEq, Eq)]
pub enum Lookup {
    /// The account with that email.
    Found(User),
    /// No account has that email.
    Missing,
    /// The store could not answer.
    Failed,
}

/// A store's answer in mathematical form.
pub enum LookupView {
    Found(UserView),
    Missing,
    Failed,
}

impl View for Lookup {
    type V = LookupView;

    open spec fn view(&self) -> LookupView {
        match self {
            Lookup::Found(user) => LookupView::Found(user@),
            Lookup::Missing => LookupView::Missing,
            Lookup::Failed => LookupView::Failed,
        }
    }
}

impl User {
    /// The account's role; a stored name that is not canonical counts as `Customer`.
    pub fn role(&self) -> (role: Role)
        ensures
            role == role_named(self@.role),
    {
        Role::from_name(self.role.as_str())
    }

    /// The account without its credential hash and MFA secret.
    pub fn summary(self) -> (summary: AccountSummary)
        ensures
            summary@ == summary_of(self@),
    {
        AccountSummary {
            id: self.id,
            email: self.email,
            role: self.role,
            active: self.active,
            mfa_enabled: self.mfa_enabled,
            mfa_verified: self.mfa_verified,
            created_at: self.created_at,
            updated_at: self.updated_at,
        }
    }
}

} // verus!
