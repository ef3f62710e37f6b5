//! Launching the core: when configured to, and when the core organization
//! does not exist yet, create the organization, then its application, then
//! the pairing of the two by client id, and print the core credentials. The
//! calls to the stores are the caller's: each step takes what the previous
//! call answered and names the next one.
use crate::config::Config;
use crate::domain::AppOrgByClientId;
use crate::ids::{uuid_text, uuid_to_string};
use crate::repositories::initial_core::{client_token_text, issued_credentials, InitialCoreImpl};
use crate::repositories::validate_bearer_auth_repository::{core_prefix, credentials_spec};
use crate::text::lacks;
use vstd::prelude::*;
use vstd::string::*;

verus! {

/// Where a launch stands.
#[derive(Debug, PartialEq, Eq, Structural)]
pub enum LunchState {
    Start,
    CheckingOrg,
    CreatingOrg,
    CreatingApp,
    CreatingAppOrg,
    Finished,
}

/// What the caller reports back.
#[derive(Debug, PartialEq, Eq, Structural)]
pub enum LunchEvent {
    /// Whether the core organization already exists.
    OrgExists(bool),
    /// The last creation asked for is done.
    Done,
}

/// What the caller is asked to do next.
#[derive(Debug)]
pub enum LunchAction {
    /// Look up whether an organization of this name exists.
    CheckOrgExists(String),
    /// Create the core organization.
    CreateOrg,
    /// Create the core application of the organization.
    CreateApp,
    /// Create the pairing of application and organization by client id.
    CreateAppOrg,
    /// Print the core credentials (see `info_lines`).
    PrintInfo,
    /// The launch is over; nothing more is done.
    Stop,
    /// The report does not fit where the launch stands; nothing is done.
    Wait,
}

/// A step of a launch under way: the state it moves to and the action it
/// asks for.
pub open spec fn lunch_next_spec(state: LunchState, event: LunchEvent) -> (LunchState, LunchAction) {
    match (state, event) {
        (LunchState::CheckingOrg, LunchEvent::OrgExists(true)) => (LunchState::Finished, LunchAction::Stop),
        (LunchState::CheckingOrg, LunchEvent::OrgExists(false)) => (
            LunchState::CreatingOrg,
            LunchAction::CreateOrg,
        ),
        (LunchState::CreatingOrg, LunchEvent::Done) => (LunchState::CreatingApp, LunchAction::CreateApp),
        (LunchState::CreatingApp, LunchEvent::Done) => (
            LunchState::CreatingAppOrg,
            LunchAction::CreateAppOrg,
        ),
        (LunchState::CreatingAppOrg, LunchEvent::Done) => (LunchState::Finished, LunchAction::PrintInfo),
        (s, _) => (s, LunchAction::Wait),
    }
}

/// The lines that print the core credentials.
pub open spec fn info_lines_spec(
    organization_id: u128,
    application_id: u128,
    client_id: u128,
    key: Seq<char>,
    client_secret: Seq<char>,
) -> Seq<Seq<char>> {
    seq![
        "CORE_ORGANIZATION_ID= "@ + uuid_text(organization_id),
        "CORE_APPLICATION_ID= "@ + uuid_text(application_id),
        "CORE_CLIENT_ID= "@ + uuid_text(client_id),
        "CORE_CLIENT_SECRET= "@ + client_secret,
        "CORE_CLIENT_KEY= "@ + key,
        "CORE_CLIENT_TOKEN= axcelium-core: "@ + client_token_text(client_id, key, client_secret),
    ]
}

/// The printed credentials name the launched ids: each id line holds the
/// text of its own id, the secret and key lines hold them as given, and
/// the token line holds, after its label, the scheme and the client token
/// of the client id, which reads back as that client (see
/// `create_client_token`).
pub proof fn law_info_lines_name_their_ids(
    organization_id: u128,
    application_id: u128,
    client_id: u128,
    key: Seq<char>,
    client_secret: Seq<char>,
)
    ensures
        ({
            let lines = info_lines_spec(organization_id, application_id, client_id, key, client_secret);
            &&& lines.len() == 6
            &&& lines[0] == "CORE_ORGANIZATION_ID= "@ + uuid_text(organization_id)
            &&& lines[1] == "CORE_APPLICATION_ID= "@ + uuid_text(application_id)
            &&& lines[2] == "CORE_CLIENT_ID= "@ + uuid_text(client_id)
            &&& lines[3] == "CORE_CLIENT_SECRET= "@ + client_secret
            &&& lines[4] == "CORE_CLIENT_KEY= "@ + key
            &&& lines[5] == "CORE_CLIENT_TOKEN= "@ + core_prefix() + client_token_text(
                client_id,
                key,
                client_secret,
            )
        }),
{
    reveal_strlit("CORE_CLIENT_TOKEN= axcelium-core: ");
    reveal_strlit("CORE_CLIENT_TOKEN= ");
    assert("CORE_CLIENT_TOKEN= axcelium-core: "@ =~= "CORE_CLIENT_TOKEN= "@ + core_prefix());
}

/// Launches the core organization and application.
pub trait InitialCoreService {
    /// Begins a launch under the configuration.
    fn lunch(&self, cfg: &Config) -> (res: (LunchState, LunchAction))
        ensures
            !cfg.core.generate_core_org_app ==> res.0 == LunchState::Finished && res.1 is Stop,
            cfg.core.generate_core_org_app ==> res.0 == LunchState::CheckingOrg && (res.1 matches LunchAction::CheckOrgExists(
                name,
            ) && name@ == cfg.organization.name@),
    ;

    /// Takes a launch one step further on what the caller reports.
    fn lunch_next(&self, state: LunchState, event: LunchEvent) -> (res: (LunchState, LunchAction))
        ensures
            res == lunch_next_spec(state, event),
    ;
}

/// The launch service over the core repository.
pub struct InitialCoreServiceImpl {
    pub repository: InitialCoreImpl,
}

impl InitialCoreServiceImpl {
    pub fn new(repository: InitialCoreImpl) -> (res: Self)
        ensures
            res.repository == repository,
    {
        InitialCoreServiceImpl { repository }
    }

    /// The lines that print the core credentials: the ids, the secret, the
    /// key, and the client token after its scheme.
    pub fn info_lines(&self, apporg: &AppOrgByClientId, key: String, client_secret: String) -> (res: Vec<String>)
        ensures
            res@.len() == 6,
            res@[0]@ == "CORE_ORGANIZATION_ID= "@ + uuid_text(apporg.organization_id),
            res@[1]@ == "CORE_APPLICATION_ID= "@ + uuid_text(apporg.application_id),
            res@[2]@ == "CORE_CLIENT_ID= "@ + uuid_text(apporg.client_id),
            res@[5]@ == "CORE_CLIENT_TOKEN= axcelium-core: "@ + client_token_text(
                apporg.client_id,
                key@,
                client_secret@,
            ),
            lacks(key@, '.') && lacks(client_secret@, '.') ==> credentials_spec(
                res@[5]@.skip(19),
            ) == issued_credentials(apporg.client_id, key@, client_secret@),
            res@.map_values(|l: String| l@) == info_lines_spec(
                apporg.organization_id,
                apporg.application_id,
                apporg.client_id,
                key@,
                client_secret@,
            ),
    {
        let mut lines: Vec<String> = Vec::new();
        let mut l1 = "CORE_ORGANIZATION_ID= ".to_owned();
        l1.append(uuid_to_string(apporg.organization_id).as_str());
        lines.push(l1);
        let mut l2 = "CORE_APPLICATION_ID= ".to_owned();
        l2.append(uuid_to_string(apporg.application_id).as_str());
        lines.push(l2);
        let mut l3 = "CORE_CLIENT_ID= ".to_owned();
        l3.append(uuid_to_string(apporg.client_id).as_str());
        lines.push(l3);
        let mut l4 = "CORE_CLIENT_SECRET= ".to_owned();
        l4.append(client_secret.as_str());
        lines.push(l4);
        let mut l5 = "CORE_CLIENT_KEY= ".to_owned();
        l5.append(key.as_str());
        lines.push(l5);
        let mut l6 = "CORE_CLIENT_TOKEN= axcelium-core: ".to_owned();
        let token = self.repository.create_client_token(apporg.client_id, key, client_secret);
        l6.append(token.as_str());
        proof {
            reveal_strlit("CORE_CLIENT_TOKEN= axcelium-core: ");
            assert(l6@.skip(19) =~= core_prefix() + token@);
        }
        lines.push(l6);
        assert(lines@.map_values(|l: String| l@) =~= info_lines_spec(
            apporg.organization_id,
            apporg.application_id,
            apporg.client_id,
            key@,
            client_secret@,
        ));
        lines
    }
}

impl InitialCoreService for InitialCoreServiceImpl {
    fn lunch(&self, cfg: &Config) -> (res: (LunchState, LunchAction)) {
        if !cfg.core.generate_core_org_app {
            return (LunchState::Finished, LunchAction::Stop);
        }
        (LunchState::CheckingOrg, LunchAction::CheckOrgExists(cfg.organization.name.clone()))
    }

    fn lunch_next(&self, state: LunchState, event: LunchEvent) -> (res: (LunchState, LunchAction)) {
        match (state, event) {
            (LunchState::CheckingOrg, LunchEvent::OrgExists(true)) => (LunchState::Finished, LunchAction::Stop),
            (LunchState::CheckingOrg, LunchEvent::OrgExists(false)) => (
                LunchState::CreatingOrg,
                LunchAction::CreateOrg,
            ),
            (LunchState::CreatingOrg, LunchEvent::Done) => (LunchState::CreatingApp, LunchAction::CreateApp),
            (LunchState::CreatingApp, LunchEvent::Done) => (
                LunchState::CreatingAppOrg,
                LunchAction::CreateAppOrg,
            ),
            (LunchState::CreatingAppOrg, LunchEvent::Done) => (
                LunchState::Finished,
                LunchAction::PrintInfo,
            ),
            (s, _) => (s, LunchAction::Wait),
        }
    }
}

/// A launch creates nothing before the check answered that the organization
/// does not exist, creates the organization, the application and their
/// pairing only in that order, prints only after the pairing, and does
/// nothing once finished.
pub proof fn law_lunch_order(state: LunchState, event: LunchEvent)
    ensures
        lunch_next_spec(state, event).1 is CreateOrg ==> state == LunchState::CheckingOrg && event
            == LunchEvent::OrgExists(false),
        lunch_next_spec(state, event).1 is CreateApp ==> state == LunchState::CreatingOrg,
        lunch_next_spec(state, event).1 is CreateAppOrg ==> state == LunchState::CreatingApp,
        lunch_next_spec(state, event).1 is PrintInfo ==> state == LunchState::CreatingAppOrg,
        state == LunchState::Finished ==> lunch_next_spec(state, event) == (
            LunchState::Finished,
            LunchAction::Wait,
        ),
        state == LunchState::Start ==> lunch_next_spec(state, event).1 is Wait,
{
}

} // verus!
