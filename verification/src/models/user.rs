//! The user rows, their mapping to users, and their statement bindings.
use crate::domain::{clone_opt_string, User};
use crate::models::timestamp::now_millis;
use vstd::prelude::*;

verus! {

/// A user row as stored.
#[derive(Debug)]
pub struct UserModel {
    pub user_id: u128,
    pub organization_id: u128,
    pub application_id: u128,
    pub username: String,
    pub email: Option<String>,
    pub hashed_password: String,
    pub created_at: i64,
    pub updated_at: i64,
    pub is_active: bool,
    pub is_verified: bool,
    pub is_locked: bool,
    pub last_login: Option<i64>,
    pub mfa_enabled: bool,
    pub deactivated_at: Option<i64>,
}

/// The row of a user: every field as it stands.
pub open spec fn user_model_of(e: User) -> UserModel {
    UserModel {
        user_id: e.user_id,
        organization_id: e.organization_id,
        application_id: e.application_id,
        username: e.username,
        email: e.email,
        hashed_password: e.hashed_password,
        created_at: e.created_at,
        updated_at: e.updated_at,
        is_active: e.is_active,
        is_verified: e.is_verified,
        is_locked: e.is_locked,
        last_login: e.last_login,
        mfa_enabled: e.mfa_enabled,
        deactivated_at: e.deactivated_at,
    }
}

/// The user of a row: every field as it stands.
pub open spec fn user_of(m: UserModel) -> User {
    User {
        user_id: m.user_id,
        organization_id: m.organization_id,
        application_id: m.application_id,
        username: m.username,
        email: m.email,
        hashed_password: m.hashed_password,
        created_at: m.created_at,
        updated_at: m.updated_at,
        is_active: m.is_active,
        is_verified: m.is_verified,
        is_locked: m.is_locked,
        last_login: m.last_login,
        mfa_enabled: m.mfa_enabled,
        deactivated_at: m.deactivated_at,
    }
}

/// A value bound to a named marker of a statement: the library's form of
/// the driver's CQL values.
#[derive(Debug)]
pub enum BindValue {
    Uuid(u128),
    Text(String),
    Timestamp(i64),
    Boolean(bool),
    Empty,
}

/// The names a user row binds, in the order they are bound.
pub open spec fn user_bind_names() -> Seq<Seq<char>> {
    seq![
        "user_id"@,
        "organization_id"@,
        "application_id"@,
        "username"@,
        "email"@,
        "hashed_password"@,
        "created_at"@,
        "updated_at"@,
        "is_active"@,
        "is_verified"@,
        "is_locked"@,
        "last_login"@,
        "mfa_enabled"@,
        "deactivated_at"@,
    ]
}

/// An optional text bound as text, or as the empty value when absent.
pub open spec fn text_or_empty(s: Option<String>) -> BindValue {
    match s {
        Some(t) => BindValue::Text(t),
        None => BindValue::Empty,
    }
}

/// An optional timestamp bound as timestamp, or as the empty value when
/// absent.
pub open spec fn timestamp_or_empty(t: Option<i64>) -> BindValue {
    match t {
        Some(v) => BindValue::Timestamp(v),
        None => BindValue::Empty,
    }
}

/// The values a user row binds, in the order of `user_bind_names`.
pub open spec fn user_bind_values(m: UserModel) -> Seq<BindValue> {
    seq![
        BindValue::Uuid(m.user_id),
        BindValue::Uuid(m.organization_id),
        BindValue::Uuid(m.application_id),
        BindValue::Text(m.username),
        text_or_empty(m.email),
        BindValue::Text(m.hashed_password),
        BindValue::Timestamp(m.created_at),
        BindValue::Timestamp(m.updated_at),
        BindValue::Boolean(m.is_active),
        BindValue::Boolean(m.is_verified),
        BindValue::Boolean(m.is_locked),
        timestamp_or_empty(m.last_login),
        BindValue::Boolean(m.mfa_enabled),
        timestamp_or_empty(m.deactivated_at),
    ]
}

impl UserModel {
    pub fn from_entity(entity: User) -> (res: Self)
        ensures
            res == user_model_of(entity),
    {
        UserModel {
            user_id: entity.user_id,
            organization_id: entity.organization_id,
            application_id: entity.application_id,
            username: entity.username,
            email: entity.email,
            hashed_password: entity.hashed_password,
            created_at: entity.created_at,
            updated_at: entity.updated_at,
            is_active: entity.is_active,
            is_verified: entity.is_verified,
            is_locked: entity.is_locked,
            last_login: entity.last_login,
            mfa_enabled: entity.mfa_enabled,
            deactivated_at: entity.deactivated_at,
        }
    }

    pub fn to_entity(&self) -> (res: User)
        ensures
            res == user_of(*self),
    {
        User {
            user_id: self.user_id,
            organization_id: self.organization_id,
            application_id: self.application_id,
            username: self.username.clone(),
            email: clone_opt_string(&self.email),
            hashed_password: self.hashed_password.clone(),
            created_at: self.created_at,
            updated_at: self.updated_at,
            is_active: self.is_active,
            is_verified: self.is_verified,
            is_locked: self.is_locked,
            last_login: self.last_login,
            mfa_enabled: self.mfa_enabled,
            deactivated_at: self.deactivated_at,
        }
    }

    /// The named values of the row, for a statement with named markers:
    /// absent email, last login and deactivation bind the empty value.
    pub fn to_bind_map(&self) -> (res: Vec<(&'static str, BindValue)>)
        ensures
            res@.map_values(|p: (&'static str, BindValue)| p.0@) == user_bind_names(),
            res@.map_values(|p: (&'static str, BindValue)| p.1) == user_bind_values(*self),
    {
        let mut map: Vec<(&'static str, BindValue)> = Vec::new();
        map.push(("user_id", BindValue::Uuid(self.user_id)));
        map.push(("organization_id", BindValue::Uuid(self.organization_id)));
        map.push(("application_id", BindValue::Uuid(self.application_id)));
        map.push(("username", BindValue::Text(self.username.clone())));
        match &self.email {
            Some(email) => map.push(("email", BindValue::Text(email.clone()))),
            None => map.push(("email", BindValue::Empty)),
        }
        map.push(("hashed_password", BindValue::Text(self.hashed_password.clone())));
        map.push(("created_at", BindValue::Timestamp(self.created_at)));
        map.push(("updated_at", BindValue::Timestamp(self.updated_at)));
        map.push(("is_active", BindValue::Boolean(self.is_active)));
        map.push(("is_verified", BindValue::Boolean(self.is_verified)));
        map.push(("is_locked", BindValue::Boolean(self.is_locked)));
        match self.last_login {
            Some(ts) => map.push(("last_login", BindValue::Timestamp(ts))),
            None => map.push(("last_login", BindValue::Empty)),
        }
        map.push(("mfa_enabled", BindValue::Boolean(self.mfa_enabled)));
        match self.deactivated_at {
            Some(ts) => map.push(("deactivated_at", BindValue::Timestamp(ts))),
            None => map.push(("deactivated_at", BindValue::Empty)),
        }
        assert(map@.map_values(|p: (&'static str, BindValue)| p.0@) =~= user_bind_names());
        assert(map@.map_values(|p: (&'static str, BindValue)| p.1) =~= user_bind_values(*self));
        map
    }
}

/// A user and its row map to each other without loss.
pub proof fn law_user_model_round_trip(e: User, m: UserModel)
    ensures
        user_of(user_model_of(e)) == e,
        user_model_of(user_of(m)) == m,
{
}

/// A user row without the password hash.
#[derive(Debug)]
pub struct CleannedUserModel {
    pub user_id: u128,
    pub organization_id: u128,
    pub application_id: u128,
    pub username: String,
    pub email: Option<String>,
    pub created_at: i64,
    pub updated_at: i64,
    pub is_active: bool,
    pub is_verified: bool,
    pub is_locked: bool,
    pub last_login: Option<i64>,
    pub mfa_enabled: bool,
    pub deactivated_at: Option<i64>,
}

/// A user found by email or username.
#[derive(Debug)]
pub struct FoundUserModel {
    pub user_id: u128,
    pub username: String,
    pub email: Option<String>,
}

/// A page of user rows and the state that fetches the next page, if any.
#[derive(Debug)]
pub struct PaginatedUsersModel {
    pub users: Vec<CleannedUserModel>,
    pub paging_state: Option<Vec<u8>>,
}

/// The fields of a user that an update may change, and the time of the
/// update.
#[derive(Debug)]
pub struct UpdateUserModel {
    pub username: Option<String>,
    pub email: Option<String>,
    pub hashed_password: Option<String>,
    pub updated_at: i64,
}

impl UpdateUserModel {
    /// An update of the given fields, stamped with the current time.
    pub fn new(username: Option<String>, email: Option<String>, hashed_password: Option<String>) -> (res: Self)
        ensures
            res.username == username,
            res.email == email,
            res.hashed_password == hashed_password,
    {
        let updated_at = now_millis();
        UpdateUserModel { username, email, hashed_password, updated_at }
    }
}

} // verus!
