//! The process configuration that the authentication core reads.

use vstd::prelude::*;

verus! {

/// The settings of the service. The secret signs and verifies every token.
#[derive(Debug, Clone, PartialEq, Eq)]
pub struct Config {
    pub database_url: String,
    pub jwt_secret: String,
    pub admin_email: String,
    pub admin_password: String,
}

/// The characters of a setting, if it is set.
pub open spec fn setting_text(setting: Option<String>) -> Option<Seq<char>> {
    match setting {
        Some(text) => Some(text@),
        None => None,
    }
}

impl Config {
    /// Puts the four settings together; there is no configuration unless
    /// every one of them is set.
    pub fn from_settings(
        database_url: Option<String>,
        jwt_secret: Option<String>,
        admin_email: Option<String>,
        admin_password: Option<String>,
    ) -> (config: Option<Config>)
        ensures
            config is Some <==> database_url is Some && jwt_secret is Some && admin_email is Some
                && admin_password is Some,
            config matches Some(c) ==> Some(c.database_url@) == setting_text(database_url) && Some(
                c.jwt_secret@,
            ) == setting_text(jwt_secret) && Some(c.admin_email@) == setting_text(admin_email)
                && Some(c.admin_password@) == setting_text(admin_password),
    {
        match (database_url, jwt_secret, admin_email, admin_password) {
            (Some(database_url), Some(jwt_secret), Some(admin_email), Some(admin_password)) => Some(
                Config { database_url, jwt_secret, admin_email, admin_password },
            ),
            _ => None,
        }
    }
}

} // verus!
