use axcelium::domain::{AppOrgByClientId, CleanAppOrgByClientId, Organization, RefreshToken, User};
use axcelium::models::apporg_client_id::AppOrgModel;
use axcelium::models::mapper::ModelMapper;
use axcelium::models::organization::OrganizationModel;
use axcelium::models::refresh_token::{RefreshTokenModel, UpdateRefreshTokenQuery};
use axcelium::models::timestamp::from_iso8601_to_timestamp;
use axcelium::models::user::{BindValue, UpdateUserModel, UserModel};

fn user() -> User {
    User {
        user_id: 1,
        organization_id: 2,
        application_id: 3,
        username: "bob".to_string(),
        email: None,
        hashed_password: "$hash".to_string(),
        created_at: 100,
        updated_at: 200,
        is_active: true,
        is_verified: false,
        is_locked: false,
        last_login: Some(150),
        mfa_enabled: true,
        deactivated_at: None,
    }
}

fn token() -> RefreshToken {
    RefreshToken {
        token_id: 5,
        application_id: 6,
        organization_id: 7,
        user_id: 8,
        encrypted_token_secret: "enc".to_string(),
        token_version: "v2".to_string(),
        parent_version: Some("v1".to_string()),
        issued_at: 1000,
        expires_at: 2000,
        revoked: false,
    }
}

#[test]
fn user_model_round_trip() {
    let model = UserModel::from_entity(user());
    assert_eq!(model.username, "bob");
    assert_eq!(model.last_login, Some(150));
    let back = model.to_entity();
    assert_eq!(back.user_id, 1);
    assert_eq!(back.hashed_password, "$hash");
    assert_eq!(back.email, None);
    assert_eq!(back.deactivated_at, None);
    assert!(back.mfa_enabled);
}

#[test]
fn user_bind_map() {
    let map = UserModel::from_entity(user()).to_bind_map();
    let names: Vec<&str> = map.iter().map(|(n, _)| *n).collect();
    assert_eq!(
        names,
        vec![
            "user_id", "organization_id", "application_id", "username", "email",
            "hashed_password", "created_at", "updated_at", "is_active", "is_verified",
            "is_locked", "last_login", "mfa_enabled", "deactivated_at"
        ]
    );
    assert!(matches!(map[0].1, BindValue::Uuid(1)));
    assert!(matches!(&map[3].1, BindValue::Text(t) if t == "bob"));
    assert!(matches!(map[4].1, BindValue::Empty));
    assert!(matches!(map[6].1, BindValue::Timestamp(100)));
    assert!(matches!(map[9].1, BindValue::Boolean(false)));
    assert!(matches!(map[11].1, BindValue::Timestamp(150)));
    assert!(matches!(map[13].1, BindValue::Empty));
}

#[test]
fn apporg_and_organization_mappers() {
    let e = AppOrgByClientId {
        client_id: 1,
        application_id: 2,
        organization_id: 3,
        organization_name: "org".to_string(),
        organization_slug: "org-slug".to_string(),
        application_name: "app".to_string(),
        application_description: "desc".to_string(),
        application_config: "{}".to_string(),
        contact_email: "c@x".to_string(),
        is_active: true,
        encrypted_client_secret: "sealed".to_string(),
        created_at: 4,
        updated_at: 5,
    };
    let m = AppOrgModel::from_entity(e);
    assert_eq!(m.organization_slug, "org-slug");
    let back = m.to_entity();
    assert_eq!(back.encrypted_client_secret, "sealed");
    let clean = CleanAppOrgByClientId::from(back);
    assert_eq!(clean.application_name, "app");
    assert_eq!(clean.updated_at, 5);

    let org = Organization {
        organization_id: 9,
        name: "n".to_string(),
        slug: "s".to_string(),
        contact_email: "e".to_string(),
        is_active: false,
        created_at: 1,
        updated_at: 2,
    };
    let om = OrganizationModel::from_entity(org);
    let back = om.to_entity();
    assert_eq!((back.organization_id, back.slug.as_str(), back.is_active), (9, "s", false));
}

#[test]
fn refresh_token_conversions() {
    let model = RefreshTokenModel::from(&token());
    assert_eq!(model.parent_version.as_deref(), Some("v1"));
    let update = UpdateRefreshTokenQuery::from(&model);
    assert_eq!(update.token_version, "v2");
    assert_eq!((update.token_id, update.issued_at, update.expires_at), (5, 1000, 2000));
    let back = RefreshToken::from(RefreshTokenModel::from(token()));
    assert_eq!(back.encrypted_token_secret, "enc");
    assert!(!back.revoked);
}

#[test]
fn update_user_model_keeps_fields() {
    let u = UpdateUserModel::new(Some("n".to_string()), None, Some("h".to_string()));
    assert_eq!(u.username.as_deref(), Some("n"));
    assert_eq!(u.email, None);
    assert_eq!(u.hashed_password.as_deref(), Some("h"));
    assert!(u.updated_at > 1_600_000_000_000);
}

#[test]
fn iso8601_to_unix_seconds() {
    assert_eq!(from_iso8601_to_timestamp("2024-01-01T00:00:00Z").unwrap(), 1_704_067_200);
    assert_eq!(from_iso8601_to_timestamp("2024-01-01T01:00:00+01:00").unwrap(), 1_704_067_200);
    assert!(from_iso8601_to_timestamp("yesterday").is_err());
}
