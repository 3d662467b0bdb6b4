use managed_reports::claims::Claims;
use managed_reports::errors::AuthError;
use managed_reports::guard::{
    bearer_token, guard_at, jwt_guard, jwt_guard_optional, resolve, Enforcement, GuardStep,
    Identity, Verdict,
};
use managed_reports::jwt::create_jwt;
use managed_reports::roles::Role;
use managed_reports::user::{Lookup, User};

const SECRET: &str = "guard-secret";
const T: usize = 1_700_000_000;

fn token() -> String {
    let claims = Claims::issue("ann@example.com".to_string(), "svc".to_string(), Role::Admin, T);
    create_jwt(claims, SECRET).unwrap()
}

fn ann() -> User {
    User {
        id: 1,
        email: "ann@example.com".to_string(),
        password: "hash".to_string(),
        role: "Admin".to_string(),
        active: true,
        mfa_enabled: false,
        mfa_secret: None,
        mfa_verified: false,
        created_at: 0,
        updated_at: 0,
    }
}

#[test]
fn bearer_prefix_is_stripped_only_at_the_start() {
    assert_eq!(bearer_token("Bearer abc.def.ghi"), "abc.def.ghi");
    assert_eq!(bearer_token("abc.def.ghi"), "abc.def.ghi");
    assert_eq!(bearer_token(""), "");
    assert_eq!(bearer_token("Bearer "), "");
    assert_eq!(bearer_token("Bearer"), "Bearer");
    assert_eq!(bearer_token("bearer abc"), "bearer abc");
    assert_eq!(bearer_token("abcBearer def"), "abcBearer def");
    assert_eq!(bearer_token("Bearer Bearer abc"), "Bearer abc");
    assert_eq!(bearer_token("Bearer \u{e9}t\u{e9}"), "\u{e9}t\u{e9}");
}

#[test]
fn mandatory_guard_treats_absent_header_as_empty_token() {
    let absent = guard_at(Enforcement::Required, None, SECRET, T);
    let empty = guard_at(Enforcement::Required, Some(""), SECRET, T);
    let bare = guard_at(Enforcement::Required, Some("Bearer "), SECRET, T);
    assert_eq!(absent, GuardStep::Reject(AuthError::InvalidToken));
    assert_eq!(absent, empty);
    assert_eq!(absent, bare);
    assert_eq!(jwt_guard(None, SECRET), GuardStep::Reject(AuthError::InvalidToken));
    assert_eq!(jwt_guard(Some(""), SECRET), GuardStep::Reject(AuthError::InvalidToken));
    assert_eq!(AuthError::InvalidToken.status(), 401);
}

#[test]
fn optional_guard_forwards_without_header() {
    assert_eq!(guard_at(Enforcement::Optional, None, SECRET, T), GuardStep::Forward);
    assert_eq!(jwt_guard_optional(None, SECRET), GuardStep::Forward);
}

#[test]
fn optional_guard_refuses_an_invalid_header() {
    for header in ["", "Bearer ", "Bearer nonsense", "a.b.c"] {
        assert_eq!(
            guard_at(Enforcement::Optional, Some(header), SECRET, T),
            GuardStep::Reject(AuthError::InvalidToken)
        );
        assert_eq!(
            jwt_guard_optional(Some(header), SECRET),
            GuardStep::Reject(AuthError::InvalidToken)
        );
    }
    assert_eq!(AuthError::InvalidToken.reply().status, 401);
}

#[test]
fn guards_ask_for_the_account_of_a_valid_token() {
    let header = format!("Bearer {}", token());
    let wanted =
        GuardStep::Lookup { email: "ann@example.com".to_string(), role: "Admin".to_string() };
    assert_eq!(guard_at(Enforcement::Required, Some(&header), SECRET, T), wanted);
    assert_eq!(guard_at(Enforcement::Optional, Some(&header), SECRET, T), wanted);
    assert_eq!(guard_at(Enforcement::Required, Some(&token()), SECRET, T), wanted);
}

#[test]
fn guards_refuse_an_expired_token() {
    let header = format!("Bearer {}", token());
    let late = T + 86_401;
    assert_eq!(
        guard_at(Enforcement::Required, Some(&header), SECRET, late),
        GuardStep::Reject(AuthError::ExpiredToken)
    );
    assert_eq!(
        guard_at(Enforcement::Optional, Some(&header), SECRET, late),
        GuardStep::Reject(AuthError::ExpiredToken)
    );
    assert_eq!(jwt_guard(Some(&header), SECRET), GuardStep::Reject(AuthError::ExpiredToken));
    assert_eq!(
        jwt_guard_optional(Some(&header), SECRET),
        GuardStep::Reject(AuthError::ExpiredToken)
    );
}

#[test]
fn guards_refuse_a_token_under_another_secret() {
    let header = format!("Bearer {}", token());
    assert_eq!(
        guard_at(Enforcement::Required, Some(&header), "other", T),
        GuardStep::Reject(AuthError::InvalidToken)
    );
}

#[test]
fn guard_does_not_strip_bearer_inside_the_token() {
    let inner = token().replacen('.', "Bearer .", 1);
    let header = format!("Bearer {}", inner);
    assert_eq!(bearer_token(&header), inner);
}

#[test]
fn found_account_is_attached() {
    assert_eq!(
        resolve(Enforcement::Required, Lookup::Found(ann())),
        Verdict::Admit(Identity::Account(ann()))
    );
    assert_eq!(
        resolve(Enforcement::Optional, Lookup::Found(ann())),
        Verdict::Admit(Identity::OptionalAccount(Some(ann())))
    );
}

#[test]
fn lost_account_is_an_internal_error() {
    for mode in [Enforcement::Required, Enforcement::Optional] {
        assert_eq!(resolve(mode, Lookup::Missing), Verdict::Refuse(AuthError::InternalError));
        assert_eq!(resolve(mode, Lookup::Failed), Verdict::Refuse(AuthError::InternalError));
    }
    assert_eq!(AuthError::InternalError.status(), 500);
}

#[test]
fn token_of_a_login_passes_both_guards() {
    let payload = managed_reports::login::LoginPayload {
        email: "ann@example.com".to_string(),
        password: "password".to_string(),
    };
    let mut account = ann();
    account.password =
        "$2a$04$UuTkLRZZ6QofpDOlMz32MuuxEHA43WOemOYHPz6.SjsVsyO1tDU96".to_string();
    let success =
        managed_reports::login::user(&payload, Lookup::Found(account.clone()), SECRET).unwrap();
    let header = format!("Bearer {}", success.token);
    let wanted =
        GuardStep::Lookup { email: "ann@example.com".to_string(), role: "Admin".to_string() };
    assert_eq!(jwt_guard(Some(&header), SECRET), wanted);
    assert_eq!(jwt_guard_optional(Some(&header), SECRET), wanted);
    assert_eq!(jwt_guard(Some(&success.token), SECRET), wanted);
    assert_eq!(
        resolve(Enforcement::Required, Lookup::Found(account.clone())),
        Verdict::Admit(Identity::Account(account))
    );
}
