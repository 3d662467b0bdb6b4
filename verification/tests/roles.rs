use managed_reports::claims::Claims;
use managed_reports::roles::Role;
use managed_reports::user::User;

fn account(role: &str) -> User {
    User {
        id: 7,
        email: "ann@example.com".to_string(),
        password: "hash".to_string(),
        role: role.to_string(),
        active: true,
        mfa_enabled: false,
        mfa_secret: None,
        mfa_verified: false,
        created_at: 0,
        updated_at: 0,
    }
}

#[test]
fn role_names_are_canonical() {
    assert_eq!(Role::Customer.to_string(), "Customer");
    assert_eq!(Role::Admin.to_string(), "Admin");
    assert_eq!(Role::SystemAdmin.to_string(), "System Admin");
}

#[test]
fn role_round_trips_through_its_name() {
    for role in [Role::Customer, Role::Admin, Role::SystemAdmin] {
        assert_eq!(Role::from_name(&role.to_string()), role);
    }
}

#[test]
fn role_names_are_distinct() {
    assert_ne!(Role::Customer.to_string(), Role::Admin.to_string());
    assert_ne!(Role::Customer.to_string(), Role::SystemAdmin.to_string());
    assert_ne!(Role::Admin.to_string(), Role::SystemAdmin.to_string());
}

#[test]
fn unknown_role_name_is_customer() {
    assert_eq!(Role::from_name("Root"), Role::Customer);
    assert_eq!(Role::from_name(""), Role::Customer);
    assert_eq!(Role::from_name("admin"), Role::Customer);
    assert_eq!(Role::from_name("SystemAdmin"), Role::Customer);
    assert_eq!(Role::from_name("System Admin "), Role::Customer);
}

#[test]
fn account_role_is_read_from_its_name() {
    assert_eq!(account("Admin").role(), Role::Admin);
    assert_eq!(account("System Admin").role(), Role::SystemAdmin);
    assert_eq!(account("Customer").role(), Role::Customer);
    assert_eq!(account("whatever").role(), Role::Customer);
}

#[test]
fn claims_role_is_read_from_its_name() {
    let claims = Claims::issue("a".to_string(), "b".to_string(), Role::SystemAdmin, 10);
    assert_eq!(claims.role, "System Admin");
    assert_eq!(claims.role(), Role::SystemAdmin);
}

#[test]
fn account_summary_keeps_all_but_the_credentials() {
    let mut user = account("Admin");
    user.mfa_secret = Some("seed".to_string());
    user.created_at = 11;
    user.updated_at = 12;
    let summary = user.clone().summary();
    assert_eq!(summary.id, 7);
    assert_eq!(summary.email, "ann@example.com");
    assert_eq!(summary.role, "Admin");
    assert!(summary.active);
    assert!(!summary.mfa_enabled);
    assert!(!summary.mfa_verified);
    assert_eq!(summary.created_at, 11);
    assert_eq!(summary.updated_at, 12);
    let shown = format!("{:?}", summary);
    assert!(!shown.contains("hash"));
    assert!(!shown.contains("seed"));
}

#[test]
fn only_canonical_names_parse() {
    assert_eq!(Role::parse("Customer"), Some(Role::Customer));
    assert_eq!(Role::parse("Admin"), Some(Role::Admin));
    assert_eq!(Role::parse("System Admin"), Some(Role::SystemAdmin));
    assert_eq!(Role::parse("system admin"), None);
    assert_eq!(Role::parse(""), None);
    assert_eq!(Role::parse("Root"), None);
}
