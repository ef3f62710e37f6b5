use axcelium::cache::redis::try_get_redis_client;
use axcelium::config::{database_urls, trim, RedisConfig};
use axcelium::repositories::paseto::{PasetoRepository, PasetoRepositoryImpl};
use axcelium::domain::CreateUser;
use axcelium::ids::new_uuid_v4;
use axcelium::init_application::{
    core_application, core_organization, create_application, create_organization, created_lines,
    hash_password, seed_next, SeedAction, SeedEvent, SeedStep,
};
use axcelium::errors::{ProducerError, RepositoryError};
use axcelium::models::user::CleannedUserModel;
use axcelium::repositories::database::{collect_rows, count_or_zero, next_page_state, users_page, PageFlow};
use axcelium::repositories::queue::consumer_users_repository::{plan_messages, ConsumerAction};
use axcelium::repositories::queue::producer::{
    create_user_payload, ProducerRepository, ProducerRepositoryImpl, UserProducerRepository,
    UserProducerRepositoryImpl,
};
use axcelium::repositories::user_repositories::{UserRepository, UserRepositoryImpl};
use axcelium::repositories::user_repository::{
    UserRepository as HasherUserRepository, UserRepositoryImpl as HasherUserRepositoryImpl,
};
use axcelium::security::{PasswordHasherImpl, PasswordHasherRepository};

#[test]
fn random_ids_are_version_four() {
    let a = new_uuid_v4();
    let b = new_uuid_v4();
    assert_ne!(a, b);
    for id in [a, b] {
        let u = uuid::Uuid::from_u128(id);
        assert_eq!(u.get_version_num(), 4);
        assert_eq!(u.get_variant(), uuid::Variant::RFC4122);
    }
}

#[test]
fn seeding_stops_when_the_organization_exists() {
    let (step, action) = seed_next(SeedStep::LookingUp, SeedEvent::OrganizationFound(true));
    assert_eq!(step, SeedStep::Finished);
    assert_eq!(action, SeedAction::Stop);
    let (step, action) = seed_next(step, SeedEvent::Inserted);
    assert_eq!(step, SeedStep::Finished);
    assert_eq!(action, SeedAction::Wait);
}

#[test]
fn seeding_inserts_in_order() {
    let (step, action) = seed_next(SeedStep::LookingUp, SeedEvent::OrganizationFound(false));
    assert_eq!(action, SeedAction::InsertOrganization);
    let (step, action) = seed_next(step, SeedEvent::Inserted);
    assert_eq!(action, SeedAction::InsertApplication);
    let (step, action) = seed_next(step, SeedEvent::Inserted);
    assert_eq!(action, SeedAction::PrintCreated);
    assert_eq!(step, SeedStep::Finished);
    let (_, action) = seed_next(SeedStep::InsertingOrganization, SeedEvent::OrganizationFound(false));
    assert_eq!(action, SeedAction::Wait);
}

#[test]
fn core_rows() {
    let org = core_organization(7, 1_700_000_000_000);
    assert_eq!(org.organization_id, 7);
    assert_eq!(org.name, "Axcelium");
    assert_eq!(org.slug, "axcelium");
    assert_eq!(org.contact_email, "support@axcelium.io");
    assert!(org.is_active);
    assert_eq!(org.created_at, 1_700_000_000_000);
    assert_eq!(org.updated_at, 1_700_000_000_000);
    let fresh = create_organization();
    assert_eq!(uuid::Uuid::from_u128(fresh.organization_id).get_version_num(), 4);
    assert_eq!(fresh.created_at, fresh.updated_at);
    let app = core_application(7, 8, 9, "hash".to_string(), 5);
    assert_eq!(app.name, "Axcelium Core");
    assert_eq!(app.description, "The core SSO platform of Axcelium.");
    assert_eq!((app.organization_id, app.application_id, app.client_id), (7, 8, 9));
    assert_eq!(app.hashed_client_secret, "hash");
    assert_eq!((app.created_at, app.updated_at), (5, 5));
}

#[test]
fn core_application_secret_checks_against_its_hash() {
    let (row, secret) = create_application(7).unwrap();
    assert_eq!(row.organization_id, 7);
    let text = uuid::Uuid::from_u128(secret).to_string();
    assert_ne!(row.hashed_client_secret, text);
    assert!(row.hashed_client_secret.starts_with("$argon2id$v=19$"));
    let hasher = PasswordHasherImpl::new();
    assert!(hasher.verify(&row.hashed_client_secret, &text).unwrap());
    assert!(!hasher.verify(&row.hashed_client_secret, "other").unwrap());
    let lines = created_lines(&row, 0x67e55044_10b1_426f_9247_bb680e5fe0c8);
    assert_eq!(lines.len(), 4);
    assert_eq!(lines[0], format!("Organization created with ID: {}", uuid::Uuid::from_u128(7)));
    assert_eq!(lines[3], "Client Secret: 67e55044-10b1-426f-9247-bb680e5fe0c8");
}

#[test]
fn seeding_password_hash() {
    let h = hash_password("s3cret").unwrap();
    assert!(h.starts_with("$argon2id$v=19$"));
    assert!(PasswordHasherImpl::new().verify(&h, "s3cret").unwrap());
}

#[test]
fn argon_repository_name_rule() {
    let repo = UserRepositoryImpl::new();
    assert!(!repo.check_rule_name("a".to_string()));
    assert!(repo.check_rule_name("ab".to_string()));
    assert!(repo.check_rule_name("a".repeat(50)));
    assert!(!repo.check_rule_name("a".repeat(51)));
    assert!(!repo.check_rule_name(String::new()));
}

#[test]
fn argon_repository_hashing() {
    let repo = UserRepositoryImpl::new();
    let h = repo.hash_password("pw".to_string()).unwrap();
    assert!(repo.verify_password(h.clone(), "pw".to_string()).unwrap());
    assert!(!repo.verify_password(h, "px".to_string()).unwrap());
    let e = repo.verify_password("not a hash".to_string(), "pw".to_string()).unwrap_err();
    assert_eq!(e.message, "password hashing failed");
    assert_eq!(e.code, 500);
}

#[test]
fn argon_repository_create_refuses_valid_names() {
    let repo = UserRepositoryImpl::new();
    let user = CreateUser { username: "alice".to_string(), email: None, password: "pw".to_string() };
    let e = repo.create(user).unwrap_err();
    assert_eq!(e.message, "username is not validate");
    assert_eq!(e.code, 400);
    let user = CreateUser { username: "x".to_string(), email: None, password: "pw".to_string() };
    let row = repo.create(user).unwrap();
    assert_eq!(row.username, "x");
    assert!(repo.verify_password(row.hashed_password, "pw".to_string()).unwrap());
}

#[test]
fn repository_hashes_through_its_hasher() {
    let repo = HasherUserRepositoryImpl::new(PasswordHasherImpl::new());
    let h = repo.hash_password("pw".to_string()).unwrap();
    assert_ne!(h, "pw");
    assert!(PasswordHasherImpl::new().verify(&h, "pw").unwrap());
}

#[test]
fn message_batches_are_planned_in_order() {
    let sets = vec![
        vec![b"{\"a\":1}".to_vec(), vec![0xff, 0xfe]],
        vec![],
        vec![b"x".to_vec()],
    ];
    let plan = plan_messages(&sets);
    assert_eq!(plan.len(), 7);
    assert!(matches!(&plan[0], ConsumerAction::Operate(t) if t == "{\"a\":1}"));
    assert!(matches!(plan[1], ConsumerAction::SkipInvalid));
    assert!(matches!(plan[2], ConsumerAction::ConsumeSet(0)));
    assert!(matches!(plan[3], ConsumerAction::ConsumeSet(1)));
    assert!(matches!(&plan[4], ConsumerAction::Operate(t) if t == "x"));
    assert!(matches!(plan[5], ConsumerAction::ConsumeSet(2)));
    assert!(matches!(plan[6], ConsumerAction::Commit));
    let empty = plan_messages(&Vec::new());
    assert_eq!(empty.len(), 1);
    assert!(matches!(empty[0], ConsumerAction::Commit));
}

#[test]
fn producer_sends_to_the_last_topic() {
    let mut p = ProducerRepositoryImpl::new();
    assert!(matches!(p.send_data_to_topic("x"), Err(ProducerError::MissingTopic)));
    p.set_topic("users");
    p.set_topic("user-events");
    let r = p.send_data_to_topic("{\"operation\":\"create\"}").unwrap();
    assert_eq!(r.topic, "user-events");
    assert_eq!(r.value, b"{\"operation\":\"create\"}".to_vec());
}

#[test]
fn new_user_payload() {
    let user = axcelium::domain::User {
        user_id: 1,
        organization_id: 2,
        application_id: 3,
        username: "dave".to_string(),
        email: None,
        hashed_password: "h".to_string(),
        created_at: 0,
        updated_at: 0,
        is_active: true,
        is_verified: false,
        is_locked: false,
        last_login: None,
        mfa_enabled: false,
        deactivated_at: None,
    };
    let q = create_user_payload(user);
    assert_eq!(q.operation, "create");
    assert_eq!(q.user.unwrap().username, "dave");
}

#[test]
fn users_are_announced_on_the_users_topic() {
    let mut p = ProducerRepositoryImpl::new();
    p.set_topic("other");
    let users = UserProducerRepositoryImpl::new(p, "users");
    let r = users.send("{}").unwrap();
    assert_eq!(r.topic, "users");
    assert_eq!(r.value, b"{}".to_vec());
    let user = axcelium::domain::User {
        user_id: 5,
        organization_id: 2,
        application_id: 3,
        username: "erin".to_string(),
        email: Some("e@x.io".to_string()),
        hashed_password: "h".to_string(),
        created_at: 0,
        updated_at: 0,
        is_active: true,
        is_verified: false,
        is_locked: false,
        last_login: None,
        mfa_enabled: false,
        deactivated_at: None,
    };
    let q = users.create(user);
    assert_eq!(q.operation, "create");
    assert_eq!(q.user.unwrap().user_id, 5);
}

#[test]
fn rows_are_collected_up_to_the_first_error() {
    let ok: Vec<Result<u32, &str>> = vec![Ok(1), Ok(2), Ok(3)];
    assert_eq!(collect_rows(ok), Ok(vec![1, 2, 3]));
    let bad: Vec<Result<u32, &str>> = vec![Ok(1), Err("first"), Ok(3), Err("second")];
    assert_eq!(collect_rows(bad), Err("first"));
    let none: Vec<Result<u32, &str>> = vec![];
    assert_eq!(collect_rows(none), Ok(vec![]));
}

#[test]
fn pages_and_counters() {
    assert_eq!(next_page_state(PageFlow::Finished), None);
    assert_eq!(next_page_state(PageFlow::More(Some(vec![1, 2]))), Some(vec![1, 2]));
    assert_eq!(next_page_state(PageFlow::More(None)), None);
    assert_eq!(count_or_zero(None), 0);
    assert_eq!(count_or_zero(Some(42)), 42);
    let row = |id: u128| CleannedUserModel {
        user_id: id,
        organization_id: 2,
        application_id: 3,
        username: format!("u{}", id),
        email: None,
        created_at: 0,
        updated_at: 0,
        is_active: true,
        is_verified: false,
        is_locked: false,
        last_login: None,
        mfa_enabled: false,
        deactivated_at: None,
    };
    let page = users_page(vec![Ok(row(1)), Ok(row(2))], PageFlow::More(Some(vec![9]))).unwrap();
    assert_eq!(page.users.len(), 2);
    assert_eq!(page.users[1].username, "u2");
    assert_eq!(page.paging_state, Some(vec![9]));
    let err = users_page(
        vec![Ok(row(1)), Err(RepositoryError::new("bad row".to_string(), 500))],
        PageFlow::Finished,
    )
    .unwrap_err();
    assert_eq!(err.message, "bad row");
}

#[test]
fn node_lists_are_split_and_trimmed() {

    assert_eq!(trim("  a b \t\n"), "a b");
    assert_eq!(trim("\u{3000}x\u{a0}"), "x");
    assert_eq!(trim("   "), "");
    assert_eq!(trim(""), "");
    assert_eq!(database_urls("10.0.0.1:9042, 10.0.0.2:9042 ,10.0.0.3"), vec!["10.0.0.1:9042", "10.0.0.2:9042", "10.0.0.3"]);
    assert_eq!(database_urls("node"), vec!["node"]);
    assert_eq!(database_urls(""), vec![""]);
    assert_eq!(database_urls("a,,b,"), vec!["a", "", "b", ""]);
    for s in ["  x , y,z  ", " \u{2028}q\u{85},", "a\u{200b}, b"] {
        let expected: Vec<String> = s.split(',').map(|p| p.trim().to_string()).collect();
        assert_eq!(database_urls(s), expected);
    }
}

#[test]
fn redis_client_is_the_one_of_its_url() {


    let cfg = |u: &str| RedisConfig { urls: vec![u.to_string(), "redis://other:1/".to_string()] };
    let a = try_get_redis_client(cfg("redis://127.0.0.1:6379/2")).unwrap();
    let b = redis::Client::open("redis://127.0.0.1:6379/2").unwrap();
    assert_eq!(format!("{:?}", a), format!("{:?}", b));
    assert_ne!(format!("{:?}", a), format!("{:?}", redis::Client::open("redis://other:1/").unwrap()));
}

#[test]
fn hashes_use_a_drawn_sixteen_byte_salt() {
    let h = PasswordHasherImpl::new().hash("pw").unwrap();
    let parts: Vec<&str> = h.split('$').collect();
    assert_eq!(parts[1], "argon2id");
    assert_eq!(parts[2], "v=19");
    assert_eq!(parts[4].len(), 22);
    let h2 = PasswordHasherImpl::new().hash("pw").unwrap();
    assert_ne!(h, h2);
    assert!(PasswordHasherImpl::new().hash("").is_ok());
}

#[test]
fn paseto_reading_key_error_only_for_wrong_lengths() {

    let e = PasetoRepositoryImpl::new()
        .decrypt("0123456789abcdef0123456789abcdef".to_string(), "v4.local.AAAA")
        .unwrap_err();
    assert_ne!(e.message, "Paseto key must be 32 bytes");
    assert_eq!(e.code, 500);
}
