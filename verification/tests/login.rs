use managed_reports::config::Config;
use managed_reports::customers::CustomerPayload;
use managed_reports::errors::{AuthError, Reply};
use managed_reports::jwt::validate_jwt_at;
use managed_reports::login::{
    after_reset, check_password, claims_for, grant, judge_password, login_at, login_start,
    login_status, screen, user, LoginPayload, StoreRequest,
};
use managed_reports::user::{Lookup, User};

const SECRET: &str = "login-secret";
const T: usize = 1_700_000_000;
const HASH: &str = "$2a$04$UuTkLRZZ6QofpDOlMz32MuuxEHA43WOemOYHPz6.SjsVsyO1tDU96";

fn ann(role: &str, active: bool) -> User {
    User {
        id: 42,
        email: "ann@example.com".to_string(),
        password: HASH.to_string(),
        role: role.to_string(),
        active,
        mfa_enabled: true,
        mfa_secret: Some("seed".to_string()),
        mfa_verified: true,
        created_at: 1,
        updated_at: 2,
    }
}

fn payload(password: &str) -> LoginPayload {
    LoginPayload { email: "ann@example.com".to_string(), password: password.to_string() }
}

#[test]
fn login_resets_mfa_then_fetches_the_account() {
    let body = payload("password");
    assert_eq!(login_start(&body), StoreRequest::ResetMfa { email: "ann@example.com".to_string() });
    assert_eq!(
        after_reset(&body, true),
        Ok(StoreRequest::FindAccount { email: "ann@example.com".to_string() })
    );
    assert_eq!(after_reset(&body, false), Err(AuthError::InternalError));
}

#[test]
fn login_with_correct_credentials_gives_a_token_of_the_account_role() {
    for role in ["Customer", "Admin", "System Admin"] {
        let account = ann(role, true);
        let success = login_at(&payload("password"), Lookup::Found(account.clone()), SECRET, T)
            .unwrap();
        assert_eq!(success.user, account.clone().summary());
        let claims = validate_jwt_at(&success.token, SECRET, T).unwrap();
        assert_eq!(claims.role, role);
        assert_eq!(claims.sub, "ann@example.com");
        assert_eq!(claims.iss, "Thusa Managed Executive Reports API.");
        assert_eq!(claims.iat, T);
        assert_eq!(claims.exp, T + 86_400);
        assert_eq!(claims, claims_for(&account, T));
    }
}

#[test]
fn login_response_does_not_hold_the_hash() {
    let success = login_at(&payload("password"), Lookup::Found(ann("Admin", true)), SECRET, T)
        .unwrap();
    let shown = format!("{:?}", success);
    assert!(!shown.contains(HASH));
    assert!(!shown.contains("seed"));
}

#[test]
fn login_embeds_the_canonical_role_name() {
    let success = login_at(&payload("password"), Lookup::Found(ann("Root", true)), SECRET, T)
        .unwrap();
    let claims = validate_jwt_at(&success.token, SECRET, T).unwrap();
    assert_eq!(claims.role, "Customer");
}

#[test]
fn login_to_inactive_account_is_refused_whatever_the_password() {
    for password in ["password", "wrong", ""] {
        let outcome = login_at(&payload(password), Lookup::Found(ann("Admin", false)), SECRET, T);
        assert_eq!(outcome, Err(AuthError::AccountInactive));
        let outcome = user(&payload(password), Lookup::Found(ann("Admin", false)), SECRET);
        assert_eq!(outcome, Err(AuthError::AccountInactive));
    }
    assert_eq!(AuthError::AccountInactive.status(), 401);
}

#[test]
fn login_with_unknown_email_is_not_found() {
    assert_eq!(
        login_at(&payload("password"), Lookup::Missing, SECRET, T),
        Err(AuthError::AccountNotFound)
    );
    assert_eq!(user(&payload("password"), Lookup::Missing, SECRET), Err(AuthError::AccountNotFound));
    assert_eq!(AuthError::AccountNotFound.status(), 404);
}

#[test]
fn login_with_wrong_password_is_refused() {
    let outcome = login_at(&payload("Password"), Lookup::Found(ann("Admin", true)), SECRET, T);
    assert_eq!(outcome, Err(AuthError::CredentialMismatch));
    assert_eq!(AuthError::CredentialMismatch.status(), 401);
}

#[test]
fn login_with_failed_store_or_unreadable_hash_is_internal() {
    assert_eq!(
        login_at(&payload("password"), Lookup::Failed, SECRET, T),
        Err(AuthError::InternalError)
    );
    let mut account = ann("Admin", true);
    account.password = "not a hash".to_string();
    assert_eq!(
        login_at(&payload("password"), Lookup::Found(account), SECRET, T),
        Err(AuthError::InternalError)
    );
}

#[test]
fn login_now_gives_a_token_that_validates_now() {
    let success = user(&payload("password"), Lookup::Found(ann("Admin", true)), SECRET).unwrap();
    let claims = managed_reports::jwt::validate_jwt(&success.token, SECRET).unwrap();
    assert_eq!(claims.role, "Admin");
    assert_eq!(claims.exp, claims.iat + 86_400);
}

#[test]
fn password_is_checked_against_the_stored_hash() {
    assert_eq!(check_password("password", HASH), None);
    assert_eq!(check_password("passwor", HASH), Some(AuthError::CredentialMismatch));
    assert_eq!(check_password(HASH, HASH), Some(AuthError::CredentialMismatch));
    assert_eq!(check_password("password", "password"), Some(AuthError::InternalError));
    assert_eq!(
        check_password(
            "correctbatteryhorsestapler",
            "$2b$04$EGdrhbKUv8Oc9vGiXX0HQOxSg445d458Muh7DAHskb6QbtCvdxcie"
        ),
        None
    );
    let fresh = bcrypt::hash("s3cret", 4).unwrap();
    assert_eq!(check_password("s3cret", &fresh), None);
    assert_eq!(check_password("s3cres", &fresh), Some(AuthError::CredentialMismatch));
}

#[test]
fn password_verdicts_map_to_failures() {
    assert_eq!(judge_password(Some(true)), None);
    assert_eq!(judge_password(Some(false)), Some(AuthError::CredentialMismatch));
    assert_eq!(judge_password(None), Some(AuthError::InternalError));
}

#[test]
fn store_answers_are_screened() {
    assert_eq!(screen(Lookup::Found(ann("Admin", true))), Ok(ann("Admin", true)));
    assert_eq!(screen(Lookup::Found(ann("Admin", false))), Err(AuthError::AccountInactive));
    assert_eq!(screen(Lookup::Missing), Err(AuthError::AccountNotFound));
    assert_eq!(screen(Lookup::Failed), Err(AuthError::InternalError));
}

#[test]
fn login_ends_with_the_summary_and_the_token() {
    let success = grant(ann("Admin", true), Some("tok".to_string())).unwrap();
    assert_eq!(success.token, "tok");
    assert_eq!(success.user.email, "ann@example.com");
    assert_eq!(success.user.id, 42);
    assert_eq!(grant(ann("Admin", true), None), Err(AuthError::InternalError));
}

#[test]
fn failures_have_status_message_and_reason() {
    let table = [
        (AuthError::ExpiredToken, 401, "Unauthorized", Some("Token expired")),
        (AuthError::InvalidToken, 401, "Unauthorized", Some("Invalid token")),
        (AuthError::AccountNotFound, 404, "Unauthorized", Some("User does not exist.")),
        (AuthError::AccountInactive, 401, "Unauthorized", Some("Account deactivated")),
        (AuthError::CredentialMismatch, 401, "Unauthorized", Some("Invalid password.")),
        (AuthError::InternalError, 500, "Internal Server Error", None),
    ];
    for (error, status, message, reason) in table {
        assert_eq!(error.status(), status);
        assert_eq!(error.message(), message);
        assert_eq!(error.reason(), reason.map(|r| r.to_string()));
        assert_eq!(
            error.reply(),
            Reply {
                status,
                message: message.to_string(),
                reason: reason.map(|r| r.to_string()),
            }
        );
    }
}

#[test]
fn configuration_needs_every_setting() {
    let set = |s: &str| Some(s.to_string());
    let config = Config::from_settings(set("db"), set("secret"), set("admin"), set("pw")).unwrap();
    assert_eq!(config.database_url, "db");
    assert_eq!(config.jwt_secret, "secret");
    assert_eq!(config.admin_email, "admin");
    assert_eq!(config.admin_password, "pw");
    assert_eq!(Config::from_settings(None, set("secret"), set("admin"), set("pw")), None);
    assert_eq!(Config::from_settings(set("db"), None, set("admin"), set("pw")), None);
    assert_eq!(Config::from_settings(set("db"), set("secret"), None, set("pw")), None);
    assert_eq!(Config::from_settings(set("db"), set("secret"), set("admin"), None), None);
}

#[test]
fn customer_payload_is_empty() {
    assert_eq!(CustomerPayload {}, CustomerPayload {});
}

#[test]
fn login_outcomes_have_their_status() {
    let granted = login_at(&payload("password"), Lookup::Found(ann("Admin", true)), SECRET, T);
    assert_eq!(login_status(&granted), 200);
    let inactive = login_at(&payload("password"), Lookup::Found(ann("Admin", false)), SECRET, T);
    assert_eq!(login_status(&inactive), 401);
    let wrong = login_at(&payload("nope"), Lookup::Found(ann("Admin", true)), SECRET, T);
    assert_eq!(login_status(&wrong), 401);
    assert_eq!(login_status(&login_at(&payload("password"), Lookup::Missing, SECRET, T)), 404);
    assert_eq!(login_status(&login_at(&payload("password"), Lookup::Failed, SECRET, T)), 500);
}
