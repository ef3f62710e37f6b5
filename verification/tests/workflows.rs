use axcelium::cache::apporg_cache::{apporg_cache_key, ApplicationsOrganizationByClientIdCacheImpl};
use axcelium::cache::cache_layer::{
    ApplicationsOrganizationByClientIdCacheLayerImpl, CreateRefreshTokenStep, FindApporgStep,
    RefreshTokenCacheLayerRepositoryImpl,
};
use axcelium::cache::redis::{try_get_redis_client, try_get_redis_cluster_client};
use axcelium::cache::refresh_token_cache::{refresh_token_cache_key, RefreshTokenCacheImpl};
use axcelium::cipher::aes_gcm_repository::AesGcmCipherImpl;
use axcelium::cipher::base64_repository::Base64RepositoryImpl;
use axcelium::config::{ApplicationConfig, Config, CoreConfig, OrganizationConfig, RedisConfig};
use axcelium::domain::{AppConfig, AppOrgByClientId, User};
use axcelium::errors::{QueueOperationError, RepositoryError};
use axcelium::models::queue::{QueueOperation, QueueUser};
use axcelium::models::refresh_token::RefreshTokenModel;
use axcelium::repositories::hello_repository::{HelloRepository, HelloRepositoryImpl};
use axcelium::repositories::initial_core::InitialCoreImpl;
use axcelium::repositories::paseto::{PasetoRepository, PasetoRepositoryImpl};
use axcelium::repositories::queue::consumer_users_repository::{message_text, operate, UserOperation};
use axcelium::services::hello_service::{HelloService, HelloServiceImpl};
use axcelium::services::initial_core_service::{
    InitialCoreService, InitialCoreServiceImpl, LunchAction, LunchEvent, LunchState,
};
use std::sync::Arc;

fn user() -> User {
    User {
        user_id: 1,
        organization_id: 2,
        application_id: 3,
        username: "carol".to_string(),
        email: Some("c@x".to_string()),
        hashed_password: "h".to_string(),
        created_at: 0,
        updated_at: 0,
        is_active: true,
        is_verified: true,
        is_locked: false,
        last_login: None,
        mfa_enabled: false,
        deactivated_at: None,
    }
}

fn apporg() -> AppOrgByClientId {
    AppOrgByClientId {
        client_id: 0x10,
        application_id: 0x20,
        organization_id: 0x30,
        organization_name: "o".to_string(),
        organization_slug: "o".to_string(),
        application_name: "a".to_string(),
        application_description: "d".to_string(),
        application_config: "{}".to_string(),
        contact_email: "e".to_string(),
        is_active: true,
        encrypted_client_secret: "x".to_string(),
        created_at: 0,
        updated_at: 0,
    }
}

fn config(generate: bool) -> Config {
    Config {
        core: CoreConfig { generate_core_org_app: generate },
        organization: OrganizationConfig {
            name: "Axcelium".to_string(),
            slug: "axcelium".to_string(),
            contact_email: "support@axcelium.io".to_string(),
        },
        application: ApplicationConfig {
            name: "Axcelium Core".to_string(),
            description: "The core SSO platform of Axcelium.".to_string(),
            config: AppConfig { is_must_name_unique: true, can_allow_email_nullable: false },
        },
    }
}

#[test]
fn hello_world() {
    assert_eq!(HelloRepositoryImpl::new().hello_world(), "Hello, World");
    assert_eq!(HelloRepositoryImpl::default().hello_world(), "Hello, World");
    assert_eq!(HelloServiceImpl::new().hello_world(), "Hello, World");
}

#[test]
fn queue_user_payloads() {
    let created = QueueUser::new("create", user());
    assert_eq!(created.operation(), "create");
    assert_eq!(created.user.as_ref().unwrap().username, "carol");
    let deleted = QueueUser::delete("delete");
    assert_eq!(deleted.operation(), "delete");
    assert!(deleted.user.is_none());
}

#[test]
fn consumer_operations() {
    assert!(matches!(operate(QueueUser::new("create", user())), Ok(UserOperation::Create(u)) if u.username == "carol"));
    assert!(matches!(operate(QueueUser::delete("create")), Err(QueueOperationError::MissingUser)));
    assert!(matches!(operate(QueueUser::delete("update")), Ok(UserOperation::Ignore)));
    assert!(matches!(operate(QueueUser::delete("delete")), Ok(UserOperation::Ignore)));
    assert!(matches!(operate(QueueUser::new("update", user())), Ok(UserOperation::Unknown(op)) if op == "update"));
    assert!(matches!(operate(QueueUser::delete("purge")), Ok(UserOperation::Unknown(op)) if op == "purge"));
}

#[test]
fn message_texts() {
    assert_eq!(message_text(b"{\"operation\":\"create\"}").unwrap(), "{\"operation\":\"create\"}");
    assert!(message_text(&[0xff, 0x00]).is_none());
}

#[test]
fn cache_keys() {
    assert_eq!(apporg_cache_key(0x10), "apporg:client_id:00000000-0000-0000-0000-000000000010");
    assert_eq!(
        refresh_token_cache_key(0xabcdef),
        "refresh_token:00000000-0000-0000-0000-000000abcdef"
    );
}

#[test]
fn redis_clients_and_caches() {
    let cfg = RedisConfig { urls: vec!["redis://127.0.0.1:6379/".to_string()] };
    let client = Arc::new(try_get_redis_client(cfg).unwrap());
    assert!(try_get_redis_client(RedisConfig { urls: vec![] }).is_none());
    assert!(try_get_redis_client(RedisConfig { urls: vec!["not a url".to_string()] }).is_none());
    let cache = ApplicationsOrganizationByClientIdCacheImpl::new(client.clone(), 60);
    assert_eq!(cache.ttl(), 60);
    let rt_cache = RefreshTokenCacheImpl::new(client, 3600);
    assert_eq!(rt_cache.ttl(), 3600);
    let cluster = RedisConfig { urls: vec!["redis://127.0.0.1:7000/".to_string()] };
    assert!(try_get_redis_cluster_client(cluster).is_some());
    assert!(try_get_redis_cluster_client(RedisConfig { urls: vec!["nope".to_string()] }).is_none());
}

#[test]
fn cache_aside_steps() {
    let layer = ApplicationsOrganizationByClientIdCacheLayerImpl::new();
    match layer.find_after_cache(0x10, Ok(Some(apporg()))) {
        FindApporgStep::Answer(Ok(Some(a))) => assert_eq!(a.client_id, 0x10),
        _ => panic!("a hit is answered"),
    }
    assert!(matches!(layer.find_after_cache(0x10, Ok(None)), FindApporgStep::QueryDatabase(0x10)));
    assert!(matches!(
        layer.find_after_cache(0x10, Err(RepositoryError::new("down".to_string(), 500))),
        FindApporgStep::Answer(Err(e)) if e.code == 500
    ));
    assert!(matches!(layer.find_after_database(Ok(None)), FindApporgStep::Answer(Ok(None))));
    match layer.find_after_database(Ok(Some(apporg()))) {
        FindApporgStep::CacheThenAnswer(a) => {
            let answered = layer.find_after_cache_write(Ok(()), a).unwrap().unwrap();
            assert_eq!(answered.application_id, 0x20);
        }
        _ => panic!("a found entry is cached"),
    }
    let e = layer
        .find_after_cache_write(Err(RepositoryError::new("ro".to_string(), 500)), apporg())
        .unwrap_err();
    assert_eq!(e.message, "ro");
}

#[test]
fn refresh_token_cache_layer_steps() {
    let layer = RefreshTokenCacheLayerRepositoryImpl::new();
    let rt = RefreshTokenModel {
        token_id: 1,
        application_id: 2,
        organization_id: 3,
        user_id: 4,
        encrypted_token_secret: "e".to_string(),
        token_version: "v".to_string(),
        parent_version: None,
        issued_at: 0,
        expires_at: 1,
        revoked: false,
    };
    assert!(matches!(layer.create_after_database(Ok(()), rt), CreateRefreshTokenStep::CacheToken(t) if t.token_id == 1));
    let rt2 = RefreshTokenModel {
        token_id: 9,
        application_id: 2,
        organization_id: 3,
        user_id: 4,
        encrypted_token_secret: "e".to_string(),
        token_version: "v".to_string(),
        parent_version: None,
        issued_at: 0,
        expires_at: 1,
        revoked: false,
    };
    assert!(matches!(
        layer.create_after_database(Err(RepositoryError::new("x".to_string(), 500)), rt2),
        CreateRefreshTokenStep::Fail(e) if e.message == "x"
    ));
}

fn service() -> InitialCoreServiceImpl {
    InitialCoreServiceImpl::new(InitialCoreImpl::new(AesGcmCipherImpl::new(&[3u8; 32]), Base64RepositoryImpl))
}

#[test]
fn lunch_disabled_does_nothing() {
    let (state, action) = service().lunch(&config(false));
    assert_eq!(state, LunchState::Finished);
    assert!(matches!(action, LunchAction::Stop));
}

#[test]
fn lunch_with_existing_org_stops() {
    let s = service();
    let (state, action) = s.lunch(&config(true));
    assert!(matches!(action, LunchAction::CheckOrgExists(ref n) if n == "Axcelium"));
    let (state, action) = s.lunch_next(state, LunchEvent::OrgExists(true));
    assert_eq!(state, LunchState::Finished);
    assert!(matches!(action, LunchAction::Stop));
}

#[test]
fn lunch_creates_in_order() {
    let s = service();
    let (state, _) = s.lunch(&config(true));
    let (state, a1) = s.lunch_next(state, LunchEvent::OrgExists(false));
    let (state, a2) = s.lunch_next(state, LunchEvent::Done);
    let (state, a3) = s.lunch_next(state, LunchEvent::Done);
    let (state, a4) = s.lunch_next(state, LunchEvent::Done);
    assert!(matches!(a1, LunchAction::CreateOrg));
    assert!(matches!(a2, LunchAction::CreateApp));
    assert!(matches!(a3, LunchAction::CreateAppOrg));
    assert!(matches!(a4, LunchAction::PrintInfo));
    assert_eq!(state, LunchState::Finished);
    let (state, a5) = s.lunch_next(state, LunchEvent::Done);
    assert!(matches!(a5, LunchAction::Wait));
    assert_eq!(state, LunchState::Finished);
    // a report that does not fit is waited out
    let (state, a6) = s.lunch_next(LunchState::CreatingOrg, LunchEvent::OrgExists(false));
    assert_eq!(state, LunchState::CreatingOrg);
    assert!(matches!(a6, LunchAction::Wait));
}

#[test]
fn lunch_info_lines() {
    let lines = service().info_lines(&apporg(), "KEY".to_string(), "SECRET".to_string());
    assert_eq!(lines[0], "CORE_ORGANIZATION_ID= 00000000-0000-0000-0000-000000000030");
    assert_eq!(lines[1], "CORE_APPLICATION_ID= 00000000-0000-0000-0000-000000000020");
    assert_eq!(lines[2], "CORE_CLIENT_ID= 00000000-0000-0000-0000-000000000010");
    assert_eq!(lines[3], "CORE_CLIENT_SECRET= SECRET");
    assert_eq!(lines[4], "CORE_CLIENT_KEY= KEY");
    assert!(lines[5].starts_with("CORE_CLIENT_TOKEN= axcelium-core: "));
    assert!(lines[5].ends_with(".KEY.SECRET"));
    assert_eq!(lines.len(), 6);
}

#[test]
fn paseto_key_lengths() {
    let repo = PasetoRepositoryImpl::new();
    let rt = axcelium::domain::RefreshToken {
        token_id: 1,
        application_id: 2,
        organization_id: 3,
        user_id: 4,
        encrypted_token_secret: "e".to_string(),
        token_version: "v1".to_string(),
        parent_version: None,
        issued_at: 0,
        expires_at: 0,
        revoked: false,
    };
    let e = repo
        .encrypt(
            &vec![0u8; 10],
            rt,
            "s",
            "k",
            "2024-01-01T00:00:00Z".to_string(),
            "2024-01-02T00:00:00Z".to_string(),
            "2024-01-01T00:00:00Z".to_string(),
        )
        .unwrap_err();
    assert_eq!(
        (e.message.as_str(), e.code),
        ("invalid hex key: Key was not in the correct format", 500)
    );
    let e = repo.decrypt("short".to_string(), "v4.local.xyz").unwrap_err();
    assert_eq!((e.message.as_str(), e.code), ("Paseto key must be 32 bytes", 500));
    let e = repo.decrypt("0123456789abcdef0123456789abcdef".to_string(), "garbage").unwrap_err();
    assert_eq!(e.code, 500);
}
