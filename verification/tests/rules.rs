use axcelium::domain::{AppConfig, CleanAppOrgByClientId, CreateUser};
use axcelium::errors::RepositoryError;
use axcelium::models::user::FoundUserModel;
use axcelium::rule_checker::{RuleCheck, UserRuleCheckerImpl, UserRuleCheckerRepository};
use axcelium::services::user_service::{UserService, UserServiceImpl};

fn c_apporg() -> CleanAppOrgByClientId {
    CleanAppOrgByClientId {
        client_id: 1,
        application_id: 2,
        organization_id: 3,
        organization_name: "o".to_string(),
        organization_slug: "o".to_string(),
        application_name: "a".to_string(),
        application_description: "d".to_string(),
        application_config: "{}".to_string(),
        contact_email: "e@x".to_string(),
        is_active: true,
        created_at: 0,
        updated_at: 0,
    }
}

fn user(email: Option<&str>) -> CreateUser {
    CreateUser {
        username: "alice".to_string(),
        email: email.map(|e| e.to_string()),
        password: "pw".to_string(),
    }
}

fn found() -> FoundUserModel {
    FoundUserModel { user_id: 9, username: "alice".to_string(), email: None }
}

#[test]
fn username_length_bounds() {
    let checker = UserRuleCheckerImpl::new();
    for (name, ok) in [
        ("", false),
        ("ab", false),
        ("abc", true),
        (&"x".repeat(49) as &str, true),
        (&"x".repeat(50) as &str, false),
    ] {
        let r = checker.check_rule_name(name);
        assert_eq!(r.is_ok(), ok, "{:?}", name);
        if let Err(e) = r {
            assert_eq!((e.message.as_str(), e.code), ("username is not valid", 400));
        }
    }
    // the length is counted in bytes: two two-byte letters pass
    assert!(checker.check_rule_name("éé").is_ok());
}

#[test]
fn email_check_steps() {
    let checker = UserRuleCheckerImpl::new();
    let allow = AppConfig { is_must_name_unique: false, can_allow_email_nullable: true };
    let strict = AppConfig { is_must_name_unique: false, can_allow_email_nullable: false };
    assert!(matches!(checker.check_email_nullable(&allow, &user(None), &c_apporg()), RuleCheck::Pass));
    assert!(matches!(checker.check_email_nullable(&allow, &user(Some("a@b")), &c_apporg()), RuleCheck::Pass));
    match checker.check_email_nullable(&strict, &user(None), &c_apporg()) {
        RuleCheck::Fail(e) => assert_eq!((e.message.as_str(), e.code), ("email is required", 400)),
        _ => panic!("expected a failure"),
    }
    match checker.check_email_nullable(&strict, &user(Some("a@b")), &c_apporg()) {
        RuleCheck::Lookup(l) => {
            assert_eq!(l.value, "a@b");
            assert_eq!((l.application_id, l.organization_id), (2, 3));
        }
        _ => panic!("expected a lookup"),
    }
    let e = checker.finish_email_check(Ok(Some(found()))).unwrap_err();
    assert_eq!((e.message.as_str(), e.code), ("email already used", 400));
    assert!(checker.finish_email_check(Ok(None)).is_ok());
    let e = checker
        .finish_email_check(Err(RepositoryError::new("db down".to_string(), 503)))
        .unwrap_err();
    assert_eq!((e.message.as_str(), e.code), ("db down", 503));
}

#[test]
fn username_check_steps() {
    let checker = UserRuleCheckerImpl::new();
    let loose = AppConfig { is_must_name_unique: false, can_allow_email_nullable: true };
    let unique = AppConfig { is_must_name_unique: true, can_allow_email_nullable: true };
    assert!(matches!(checker.check_username_unique(&loose, &user(None), &c_apporg()), RuleCheck::Pass));
    match checker.check_username_unique(&unique, &user(None), &c_apporg()) {
        RuleCheck::Lookup(l) => assert_eq!(l.value, "alice"),
        _ => panic!("expected a lookup"),
    }
    let e = checker.finish_username_check(Ok(Some(found()))).unwrap_err();
    assert_eq!((e.message.as_str(), e.code), ("username already used", 400));
    assert!(checker.finish_username_check(Ok(None)).is_ok());
}

#[test]
fn registration_answer() {
    let service = UserServiceImpl::new();
    let created = service.create(user(Some("a@b")), Ok(77)).unwrap();
    assert_eq!(created.user_id, 77);
    assert_eq!(created.username, "alice");
    assert_eq!(created.email.as_deref(), Some("a@b"));
    let e = service
        .create(user(None), Err(RepositoryError::new("dup".to_string(), 409)))
        .unwrap_err();
    assert_eq!((e.message.as_str(), e.code), ("dup", 409));
}
