//! The refresh token rows and the statements that update them.
use crate::domain::{clone_opt_string, RefreshToken};
use vstd::prelude::*;
use vstd::std_specs::convert::FromSpecImpl;

verus! {

/// A refresh token as stored.
#[derive(Debug)]
pub struct RefreshTokenModel {
    pub token_id: u128,
    pub application_id: u128,
    pub organization_id: u128,
    pub user_id: u128,
    pub encrypted_token_secret: String,
    pub token_version: String,
    pub parent_version: Option<String>,
    pub issued_at: i64,
    pub expires_at: i64,
    pub revoked: bool,
}

/// The row of a refresh token: every field as it stands.
pub open spec fn refresh_token_model_of(t: RefreshToken) -> RefreshTokenModel {
    RefreshTokenModel {
        token_id: t.token_id,
        application_id: t.application_id,
        organization_id: t.organization_id,
        user_id: t.user_id,
        encrypted_token_secret: t.encrypted_token_secret,
        token_version: t.token_version,
        parent_version: t.parent_version,
        issued_at: t.issued_at,
        expires_at: t.expires_at,
        revoked: t.revoked,
    }
}

/// The refresh token of a row: every field as it stands.
pub open spec fn refresh_token_of(m: RefreshTokenModel) -> RefreshToken {
    RefreshToken {
        token_id: m.token_id,
        application_id: m.application_id,
        organization_id: m.organization_id,
        user_id: m.user_id,
        encrypted_token_secret: m.encrypted_token_secret,
        token_version: m.token_version,
        parent_version: m.parent_version,
        issued_at: m.issued_at,
        expires_at: m.expires_at,
        revoked: m.revoked,
    }
}

impl From<RefreshToken> for RefreshTokenModel {
    fn from(token: RefreshToken) -> (res: Self) {
        RefreshTokenModel {
            token_id: token.token_id,
            application_id: token.application_id,
            organization_id: token.organization_id,
            user_id: token.user_id,
            encrypted_token_secret: token.encrypted_token_secret,
            token_version: token.token_version,
            parent_version: token.parent_version,
            issued_at: token.issued_at,
            expires_at: token.expires_at,
            revoked: token.revoked,
        }
    }
}

impl FromSpecImpl<RefreshToken> for RefreshTokenModel {
    open spec fn obeys_from_spec() -> bool {
        true
    }

    open spec fn from_spec(token: RefreshToken) -> RefreshTokenModel {
        refresh_token_model_of(token)
    }
}

impl From<RefreshTokenModel> for RefreshToken {
    fn from(model: RefreshTokenModel) -> (res: Self) {
        RefreshToken {
            token_id: model.token_id,
            application_id: model.application_id,
            organization_id: model.organization_id,
            user_id: model.user_id,
            encrypted_token_secret: model.encrypted_token_secret,
            token_version: model.token_version,
            parent_version: model.parent_version,
            issued_at: model.issued_at,
            expires_at: model.expires_at,
            revoked: model.revoked,
        }
    }
}

impl FromSpecImpl<RefreshTokenModel> for RefreshToken {
    open spec fn obeys_from_spec() -> bool {
        true
    }

    open spec fn from_spec(model: RefreshTokenModel) -> RefreshToken {
        refresh_token_of(model)
    }
}

impl<'a> From<&'a RefreshToken> for RefreshTokenModel {
    fn from(token: &'a RefreshToken) -> (res: Self) {
        RefreshTokenModel {
            token_id: token.token_id,
            application_id: token.application_id,
            organization_id: token.organization_id,
            user_id: token.user_id,
            encrypted_token_secret: token.encrypted_token_secret.clone(),
            token_version: token.token_version.clone(),
            parent_version: clone_opt_string(&token.parent_version),
            issued_at: token.issued_at,
            expires_at: token.expires_at,
            revoked: token.revoked,
        }
    }
}

impl<'a> FromSpecImpl<&'a RefreshToken> for RefreshTokenModel {
    open spec fn obeys_from_spec() -> bool {
        true
    }

    open spec fn from_spec(token: &'a RefreshToken) -> RefreshTokenModel {
        refresh_token_model_of(*token)
    }
}

/// A refresh token and its row map to each other without loss.
pub proof fn law_refresh_token_model_round_trip(t: RefreshToken, m: RefreshTokenModel)
    ensures
        refresh_token_of(refresh_token_model_of(t)) == t,
        refresh_token_model_of(refresh_token_of(m)) == m,
{
}

/// A refresh token found by id and version.
#[derive(Debug)]
pub struct FoundRefreshTokenModel {
    pub application_id: u128,
    pub organization_id: u128,
    pub user_id: u128,
    pub encrypted_token_secret: String,
    pub parent_version: Option<String>,
    pub issued_at: i64,
    pub expires_at: i64,
    pub revoked: bool,
}

/// The fields a rotation of a refresh token writes, and the keys of its row.
#[derive(Debug)]
pub struct UpdateRefreshTokenQuery {
    pub token_id: u128,
    pub application_id: u128,
    pub organization_id: u128,
    pub token_version: String,
    pub parent_version: Option<String>,
    pub issued_at: i64,
    pub expires_at: i64,
}

/// The update of a row: its keys, version chain and validity.
pub open spec fn update_query_of(m: RefreshTokenModel) -> UpdateRefreshTokenQuery {
    UpdateRefreshTokenQuery {
        token_id: m.token_id,
        application_id: m.application_id,
        organization_id: m.organization_id,
        token_version: m.token_version,
        parent_version: m.parent_version,
        issued_at: m.issued_at,
        expires_at: m.expires_at,
    }
}

/// The update of a stored token names that token's own row, by its id,
/// application and organization, and writes its version chain and times as
/// they stand.
pub proof fn law_update_query_names_its_row(m: RefreshTokenModel)
    ensures
        update_query_of(m).token_id == m.token_id,
        update_query_of(m).application_id == m.application_id,
        update_query_of(m).organization_id == m.organization_id,
        update_query_of(m).token_version == m.token_version,
        update_query_of(m).parent_version == m.parent_version,
        update_query_of(m).issued_at == m.issued_at,
        update_query_of(m).expires_at == m.expires_at,
{
}

impl<'a> From<&'a RefreshTokenModel> for UpdateRefreshTokenQuery {
    fn from(token: &'a RefreshTokenModel) -> (res: Self)
        ensures
            res.token_id == token.token_id,
            res.application_id == token.application_id,
            res.organization_id == token.organization_id,
            res.token_version == token.token_version,
            res.parent_version == token.parent_version,
            res.issued_at == token.issued_at,
            res.expires_at == token.expires_at,
    {
        UpdateRefreshTokenQuery {
            token_id: token.token_id,
            application_id: token.application_id,
            organization_id: token.organization_id,
            token_version: token.token_version.clone(),
            parent_version: clone_opt_string(&token.parent_version),
            issued_at: token.issued_at,
            expires_at: token.expires_at,
        }
    }
}

impl<'a> FromSpecImpl<&'a RefreshTokenModel> for UpdateRefreshTokenQuery {
    open spec fn obeys_from_spec() -> bool {
        true
    }

    open spec fn from_spec(token: &'a RefreshTokenModel) -> UpdateRefreshTokenQuery {
        update_query_of(*token)
    }
}

} // verus!
