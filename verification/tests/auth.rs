use axcelium::cipher::aes_gcm_repository::AesGcmCipherImpl;
use axcelium::cipher::base64_repository::{Base64Repository, Base64RepositoryImpl};
use axcelium::domain::AppOrgByClientId;
use axcelium::errors::RepositoryError;
use axcelium::ids::uuid_to_string;
use axcelium::repositories::initial_core::InitialCoreImpl;
use axcelium::repositories::validate_bearer_auth_repository::VaildateBearerAuthMiddlewareRepositoryImpl;
use axcelium::services::validate_bearer_auth_service::{
    VaildateBearerAuthMiddlewareService, VaildateBearerAuthMiddlewareServiceImpl,
};

const KEY: [u8; 32] = [42u8; 32];
const CLIENT_ID: u128 = 0x1111_2222_3333_4444_5555_6666_7777_8888;

fn repo() -> VaildateBearerAuthMiddlewareRepositoryImpl {
    VaildateBearerAuthMiddlewareRepositoryImpl::new(Base64RepositoryImpl, AesGcmCipherImpl::new(&KEY))
}

fn core_repo() -> InitialCoreImpl {
    InitialCoreImpl::new(AesGcmCipherImpl::new(&KEY), Base64RepositoryImpl)
}

fn apporg(encrypted: &str) -> AppOrgByClientId {
    AppOrgByClientId {
        client_id: CLIENT_ID,
        application_id: 2,
        organization_id: 3,
        organization_name: "Axcelium".to_string(),
        organization_slug: "axcelium".to_string(),
        application_name: "Axcelium Core".to_string(),
        application_description: "core".to_string(),
        application_config: "{}".to_string(),
        contact_email: "support@axcelium.io".to_string(),
        is_active: true,
        encrypted_client_secret: encrypted.to_string(),
        created_at: 10,
        updated_at: 20,
    }
}

fn err_of<T: std::fmt::Debug>(r: Result<T, RepositoryError>) -> (String, u16) {
    let e = r.unwrap_err();
    (e.message, e.code)
}

#[test]
fn credentials_without_scheme_are_refused() {
    let r = repo().parse_axcelium_credentials("Bearer a.b.c".to_string());
    assert_eq!(err_of(r), ("missing axcelium-core prefix".to_string(), 400));
    let r = repo().parse_axcelium_credentials("axcelium-core:a.b.c".to_string());
    assert_eq!(err_of(r), ("missing axcelium-core prefix".to_string(), 400));
}

#[test]
fn credentials_need_three_parts() {
    for bad in ["axcelium-core: a.b", "axcelium-core: a.b.c.d", "axcelium-core: ", "axcelium-core: abc"] {
        let r = repo().parse_axcelium_credentials(bad.to_string());
        assert_eq!(err_of(r), ("invalid credential format".to_string(), 400));
    }
}

#[test]
fn credentials_with_bad_base64_or_id_are_refused() {
    let r = repo().parse_axcelium_credentials("axcelium-core: !!.key.aGk=".to_string());
    assert_eq!(err_of(r), ("invalid base64 input".to_string(), 400));
    let r = repo().parse_axcelium_credentials("axcelium-core: aGk=.key.!!".to_string());
    assert_eq!(err_of(r), ("invalid base64 input".to_string(), 400));
    // "hi" is no UUID
    let r = repo().parse_axcelium_credentials("axcelium-core: aGk=.key.aGk=".to_string());
    assert_eq!(err_of(r), ("invalid client id".to_string(), 400));
}

#[test]
fn credentials_are_read() {
    let b64 = Base64RepositoryImpl;
    let id_part = b64.encode(uuid_to_string(CLIENT_ID).as_bytes());
    let token = format!("axcelium-core: {}.the-key.{}", id_part, b64.encode(b"s3cret"));
    let (id, key, secret) = repo().parse_axcelium_credentials(token).unwrap();
    assert_eq!(id, CLIENT_ID);
    assert_eq!(key, "the-key");
    assert_eq!(secret, "s3cret");
    // an empty key is a part like any other
    let token = format!("axcelium-core: {}..{}", id_part, b64.encode(b""));
    let (_, key, secret) = repo().parse_axcelium_credentials(token).unwrap();
    assert_eq!((key.as_str(), secret.as_str()), ("", ""));
}

#[test]
fn create_client_token_layout() {
    let token = core_repo().create_client_token(CLIENT_ID, "k".to_string(), "s".to_string());
    let expected_id = Base64RepositoryImpl.encode(b"11112222-3333-4444-5555-666677778888");
    assert_eq!(token, format!("{}.k.s", expected_id));
}

#[test]
fn issued_token_authenticates() {
    let core = core_repo();
    let sealed = core.seal_client_secret(b"my client secret").unwrap();
    let token = core.create_client_token(CLIENT_ID, sealed.nonce.clone(), sealed.base64_secret.clone());
    let repo = repo();
    let creds = repo.parse_axcelium_credentials(format!("axcelium-core: {}", token)).unwrap();
    assert_eq!(creds.0, CLIENT_ID);
    assert_eq!(creds.1, sealed.nonce);
    assert_eq!(creds.2, "my client secret");
    let clean = repo
        .authentication(creds, Ok(apporg(&sealed.encrypted_client_secret)))
        .unwrap();
    assert_eq!(clean.client_id, CLIENT_ID);
    assert_eq!(clean.organization_name, "Axcelium");
    assert_eq!(clean.updated_at, 20);
}

#[test]
fn wrong_secret_is_unauthorized() {
    let core = core_repo();
    let sealed = core.seal_client_secret(b"right").unwrap();
    let wrong = Base64RepositoryImpl.encode(b"wrong");
    let token = core.create_client_token(CLIENT_ID, sealed.nonce.clone(), wrong);
    let repo = repo();
    let creds = repo.parse_axcelium_credentials(format!("axcelium-core: {}", token)).unwrap();
    let r = repo.authentication(creds, Ok(apporg(&sealed.encrypted_client_secret)));
    assert_eq!(err_of(r), ("unauth".to_string(), 401));
}

#[test]
fn failed_lookup_is_answered_as_it_is() {
    let r = repo().authentication(
        (CLIENT_ID, "k".to_string(), "s".to_string()),
        Err(RepositoryError::new("not found".to_string(), 404)),
    );
    assert_eq!(err_of(r), ("not found".to_string(), 404));
}

#[test]
fn key_that_is_no_nonce_is_refused_without_panic() {
    let core = core_repo();
    let sealed = core.seal_client_secret(b"abc").unwrap();
    // "AAAA" decodes to three bytes, no nonce
    let r = repo().try_authentication(
        (CLIENT_ID, "AAAA".to_string(), "abc".to_string()),
        Ok(apporg(&sealed.encrypted_client_secret)),
    );
    assert!(r.is_none());
}

#[test]
fn service_reads_header() {
    let service = VaildateBearerAuthMiddlewareServiceImpl::new(repo());
    assert_eq!(err_of(service.parse_header(None)), ("Missing Authorization".to_string(), 400));
    assert_eq!(
        err_of(service.parse_header(Some("Bearer x".to_string()))),
        ("Invalid Prefix".to_string(), 400)
    );
    assert_eq!(service.parse_header(Some("axcelium-core: abc".to_string())).unwrap(), "abc");
}

#[test]
fn service_strips_the_scheme_before_the_repository_does() {
    let core = core_repo();
    let sealed = core.seal_client_secret(b"pw").unwrap();
    let token = core.create_client_token(CLIENT_ID, sealed.nonce.clone(), sealed.base64_secret.clone());
    let service = VaildateBearerAuthMiddlewareServiceImpl::new(repo());
    // the header with the scheme once: the repository finds no scheme left
    let r = service.authentication(Some(format!("axcelium-core: {}", token)));
    assert_eq!(err_of(r), ("missing axcelium-core prefix".to_string(), 400));
    // with the scheme twice the credential is read and authenticated
    let creds = service
        .authentication(Some(format!("axcelium-core: axcelium-core: {}", token)))
        .unwrap();
    let clean = service
        .complete_authentication(creds, Ok(apporg(&sealed.encrypted_client_secret)))
        .unwrap()
        .unwrap();
    assert_eq!(clean.application_id, 2);
}

#[test]
fn sealed_secret_texts_hold_no_dot() {
    let sealed = core_repo().seal_client_secret(&[0xffu8; 40]).unwrap();
    assert!(!sealed.nonce.contains('.'));
    assert!(!sealed.base64_secret.contains('.'));
    assert_eq!(Base64RepositoryImpl.decode(&sealed.base64_secret).unwrap(), vec![0xffu8; 40]);
}
