//! The rules a new user must meet: the length of the username, and, where
//! the application asks for it, a present and unused email and an unused
//! username. The lookups of used emails and usernames are the caller's: a
//! check answers either its verdict or the lookup it needs, and the verdict
//! on what the lookup found is given by `finish_email_check` or
//! `finish_username_check`.
use crate::domain::{opt_view, AppConfig, CleanAppOrgByClientId, CreateUser};
use crate::errors::{repo_error, unit_view, RepositoryError, RepositoryResult};
use crate::models::user::FoundUserModel;
use vstd::prelude::*;
use vstd::string::*;
use vstd::utf8::*;

verus! {

/// The answer to a username of the wrong length.
pub open spec fn username_length_failure() -> (Seq<char>, u16) {
    ("username is not valid"@, 400)
}

/// The answer to a missing email where one is required.
pub open spec fn email_required_failure() -> (Seq<char>, u16) {
    ("email is required"@, 400)
}

/// The answer to an email that another user has.
pub open spec fn email_used_failure() -> (Seq<char>, u16) {
    ("email already used"@, 400)
}

/// The answer to a username that another user has.
pub open spec fn username_used_failure() -> (Seq<char>, u16) {
    ("username already used"@, 400)
}

/// A username is accepted when its UTF-8 is more than 2 and fewer than 50
/// bytes long.
pub open spec fn username_length_ok(name: Seq<char>) -> bool {
    2 < encode_utf8(name).len() < 50
}

/// The lookup of a user by a value (an email or a username) within an
/// application of an organization.
pub struct UserLookup {
    pub value: String,
    pub application_id: u128,
    pub organization_id: u128,
}

/// The outcome of the first step of a check.
pub enum RuleCheck {
    /// The rule holds without a lookup.
    Pass,
    /// The rule fails without a lookup.
    Fail(RepositoryError),
    /// The rule needs this lookup; its verdict follows from what was found.
    Lookup(UserLookup),
}

/// What a lookup found, by views: a failed lookup, or whether a user was found.
pub open spec fn found_user_view(found: RepositoryResult<Option<FoundUserModel>>) -> Result<
    bool,
    (Seq<char>, u16),
> {
    match found {
        Ok(f) => Ok(f is Some),
        Err(e) => Err(e@),
    }
}

/// The verdict on a uniqueness lookup: a failed lookup is answered as it
/// is, a found user with `used`, no user passes.
pub open spec fn unique_verdict(found: Result<bool, (Seq<char>, u16)>, used: (Seq<char>, u16)) -> Result<
    (),
    (Seq<char>, u16),
> {
    match found {
        Err(e) => Err(e),
        Ok(true) => Err(used),
        Ok(false) => Ok(()),
    }
}

/// Checks the rules on new users.
pub trait UserRuleCheckerRepository {
    /// Accepts a username of more than 2 and fewer than 50 bytes.
    fn check_rule_name(&self, name: &str) -> (res: RepositoryResult<()>)
        ensures
            unit_view(res) == if username_length_ok(name@) {
                Ok::<(), (Seq<char>, u16)>(())
            } else {
                Err(username_length_failure())
            },
    ;

    /// Where the application does not allow users without email, asks for
    /// the email and for the lookup of its use.
    fn check_email_nullable(
        &self,
        config: &AppConfig,
        user: &CreateUser,
        c_apporg: &CleanAppOrgByClientId,
    ) -> (res: RuleCheck)
        ensures
            config.can_allow_email_nullable ==> res is Pass,
            !config.can_allow_email_nullable && user.email is None ==> (res matches RuleCheck::Fail(
                e,
            ) && e@ == email_required_failure()),
            !config.can_allow_email_nullable && user.email is Some ==> (res matches RuleCheck::Lookup(
                l,
            ) && Some(l.value@) == opt_view(user.email) && l.application_id
                == c_apporg.application_id && l.organization_id == c_apporg.organization_id),
    ;

    /// Where the application wants unique usernames, asks for the lookup of
    /// the username's use.
    fn check_username_unique(
        &self,
        config: &AppConfig,
        user: &CreateUser,
        c_apporg: &CleanAppOrgByClientId,
    ) -> (res: RuleCheck)
        ensures
            !config.is_must_name_unique ==> res is Pass,
            config.is_must_name_unique ==> (res matches RuleCheck::Lookup(l) && l.value@
                == user.username@ && l.application_id == c_apporg.application_id
                && l.organization_id == c_apporg.organization_id),
    ;

    /// The verdict on the lookup of an email.
    fn finish_email_check(&self, found: RepositoryResult<Option<FoundUserModel>>) -> (res: RepositoryResult<()>)
        ensures
            unit_view(res) == unique_verdict(found_user_view(found), email_used_failure()),
    ;

    /// The verdict on the lookup of a username.
    fn finish_username_check(&self, found: RepositoryResult<Option<FoundUserModel>>) -> (res: RepositoryResult<()>)
        ensures
            unit_view(res) == unique_verdict(found_user_view(found), username_used_failure()),
    ;
}

/// The rule checker of user registration.
pub struct UserRuleCheckerImpl;

impl UserRuleCheckerImpl {
    pub fn new() -> (res: Self) {
        UserRuleCheckerImpl
    }
}

impl UserRuleCheckerRepository for UserRuleCheckerImpl {
    fn check_rule_name(&self, name: &str) -> (res: RepositoryResult<()>) {
        let len = name.as_bytes().len();
        if len <= 2 || len >= 50 {
            Err(repo_error("username is not valid", 400))
        } else {
            Ok(())
        }
    }

    fn check_email_nullable(
        &self,
        config: &AppConfig,
        user: &CreateUser,
        c_apporg: &CleanAppOrgByClientId,
    ) -> (res: RuleCheck) {
        if config.can_allow_email_nullable {
            return RuleCheck::Pass;
        }
        match &user.email {
            None => RuleCheck::Fail(repo_error("email is required", 400)),
            Some(email) => RuleCheck::Lookup(
                UserLookup {
                    value: email.clone(),
                    application_id: c_apporg.application_id,
                    organization_id: c_apporg.organization_id,
                },
            ),
        }
    }

    fn check_username_unique(
        &self,
        config: &AppConfig,
        user: &CreateUser,
        c_apporg: &CleanAppOrgByClientId,
    ) -> (res: RuleCheck) {
        if !config.is_must_name_unique {
            return RuleCheck::Pass;
        }
        RuleCheck::Lookup(
            UserLookup {
                value: user.username.clone(),
                application_id: c_apporg.application_id,
                organization_id: c_apporg.organization_id,
            },
        )
    }

    fn finish_email_check(&self, found: RepositoryResult<Option<FoundUserModel>>) -> (res: RepositoryResult<()>) {
        match found {
            Err(e) => Err(e),
            Ok(Some(_)) => Err(repo_error("email already used", 400)),
            Ok(None) => Ok(()),
        }
    }

    fn finish_username_check(&self, found: RepositoryResult<Option<FoundUserModel>>) -> (res: RepositoryResult<()>) {
        match found {
            Err(e) => Err(e),
            Ok(Some(_)) => Err(repo_error("username already used", 400)),
            Ok(None) => Ok(()),
        }
    }
}

} // verus!
