//! The failures of authentication and the replies they turn into.

use vstd::prelude::*;

verus! {

/// Why a request was refused.
#[derive(Debug, Clone, Copy, PartialEq, Eq, Hash, Structural)]
pub enum AuthError {
    /// The token was genuine but its expiry time has passed.
    ExpiredToken,
    /// The token is malformed, carries a wrong signature or malformed claims, or is missing.
    InvalidToken,
    /// No account has the submitted email.
    AccountNotFound,
    /// The account exists but is deactivated.
    AccountInactive,
    /// The submitted password does not match the stored hash.
    CredentialMismatch,
    /// The store, the hashing, the signing or something unexpected failed.
    InternalError,
}

/// What is sent back when a request is refused.
#[derive(Debug, Clone, PartialEq, Eq)]
pub struct Reply {
    pub status: u16,
    pub message: String,
    pub reason: Option<String>,
}

/// A refusal in mathematical form.
pub struct ReplyView {
    pub status: nat,
    pub message: Seq<char>,
    pub reason: Option<Seq<char>>,
}

impl View for Reply {
    type V = ReplyView;

    open spec fn view(&self) -> ReplyView {
        ReplyView {
            status: self.status as nat,
            message: self.message@,
            reason: match self.reason {
                Some(text) => Some(text@),
                None => None,
            },
        }
    }
}

/// The status code of each failure.
pub open spec fn status_of(error: AuthError) -> nat {
    match error {
        AuthError::ExpiredToken => 401,
        AuthError::InvalidToken => 401,
        AuthError::AccountNotFound => 404,
        AuthError::AccountInactive => 401,
        AuthError::CredentialMismatch => 401,
        AuthError::InternalError => 500,
    }
}

/// The headline of each failure: nothing of an internal failure leaks out.
pub open spec fn message_of(error: AuthError) -> Seq<char> {
    match error {
        AuthError::InternalError => "Internal Server Error"@,
        _ => "Unauthorized"@,
    }
}

/// The reason given to the caller; an internal failure gives none.
pub open spec fn reason_of(error: AuthError) -> Option<Seq<char>> {
    match error {
        AuthError::ExpiredToken => Some("Token expired"@),
        AuthError::InvalidToken => Some("Invalid token"@),
        AuthError::AccountNotFound => Some("User does not exist."@),
        AuthError::AccountInactive => Some("Account deactivated"@),
        AuthError::CredentialMismatch => Some("Invalid password."@),
        AuthError::InternalError => None,
    }
}

/// The whole reply to a failure.
pub open spec fn reply_of(error: AuthError) -> ReplyView {
    ReplyView { status: status_of(error), message: message_of(error), reason: reason_of(error) }
}

impl AuthError {
    /// The status code sent for this failure.
    pub fn status(&self) -> (code: u16)
        ensures
            code as nat == status_of(*self),
    {
        match self {
            AuthError::AccountNotFound => 404,
            AuthError::InternalError => 500,
            _ => 401,
        }
    }

    /// The headline sent for this failure.
    pub fn message(&self) -> (text: String)
        ensures
            text@ == message_of(*self),
    {
        match self {
            AuthError::InternalError => "Internal Server Error".to_owned(),
            _ => "Unauthorized".to_owned(),
        }
    }

    /// The reason sent for this failure, if it has one.
    pub fn reason(&self) -> (text: Option<String>)
        ensures
            match text {
                Some(t) => reason_of(*self) == Some(t@),
                None => reason_of(*self) is None,
            },
    {
        match self {
            AuthError::ExpiredToken => Some("Token expired".to_owned()),
            AuthError::InvalidToken => Some("Invalid token".to_owned()),
            AuthError::AccountNotFound => Some("User does not exist.".to_owned()),
            AuthError::AccountInactive => Some("Account deactivated".to_owned()),
            AuthError::CredentialMismatch => Some("Invalid password.".to_owned()),
            AuthError::InternalError => None,
        }
    }

    /// The reply sent for this failure.
    pub fn reply(&self) -> (reply: Reply)
        ensures
            reply@ == reply_of(*self),
    {
        Reply { status: self.status(), message: self.message(), reason: self.reason() }
    }
}

/// Every failure is answered with 401, 404 or 500. Only an internal error
/// is answered with 500, and only it gives no reason; only an unknown
/// account is answered with 404.
pub proof fn lemma_status_classes(error: AuthError)
    ensures
        status_of(error) == 401 || status_of(error) == 404 || status_of(error) == 500,
        status_of(error) == 500 <==> error == AuthError::InternalError,
        status_of(error) == 404 <==> error == AuthError::AccountNotFound,
        reason_of(error) is None <==> error == AuthError::InternalError,
        reply_of(error).status == status_of(error),
{
}

} // verus!
