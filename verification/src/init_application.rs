//! Seeding the store at first start: the Axcelium organization and its
//! core application, unless an organization of that name exists. The rows
//! and the printed credentials are made here; the queries are the caller's,
//! which reports each answer back to `seed_next`.
use crate::domain::Organization;
use crate::errors::RepositoryResult;
use crate::ids::{hex_digit, hex_digits, new_uuid_v4, uuid_text, uuid_to_string};
use crate::models::timestamp::now_millis;
use crate::security::{
    argon2id_prefix, generated_salt, hash_spec, hash_view, max_password_len, verify_spec,
    PasswordHasherImpl, PasswordHasherRepository,
};
use crate::text::{has_prefix, lemma_encode_utf8_len};
use vstd::prelude::*;
use vstd::utf8::*;

verus! {

/// The row of the core application as it is inserted: the client secret is
/// stored hashed.
#[derive(Debug)]
pub struct CoreApplicationRow {
    pub organization_id: u128,
    pub application_id: u128,
    pub name: String,
    pub description: String,
    pub client_id: u128,
    pub hashed_client_secret: String,
    pub created_at: i64,
    pub updated_at: i64,
}

/// Where seeding stands.
#[derive(Debug, PartialEq, Eq, Structural)]
pub enum SeedStep {
    LookingUp,
    InsertingOrganization,
    InsertingApplication,
    Finished,
}

/// What the caller reports back.
#[derive(Debug, PartialEq, Eq, Structural)]
pub enum SeedEvent {
    /// Whether an organization of the core name was found.
    OrganizationFound(bool),
    /// The insert asked for is done.
    Inserted,
}

/// What the caller is asked to do next.
#[derive(Debug, PartialEq, Eq, Structural)]
pub enum SeedAction {
    /// Insert the organization row.
    InsertOrganization,
    /// Insert the application row of the organization.
    InsertApplication,
    /// Print the created ids and the client secret (see `created_lines`).
    PrintCreated,
    /// Seeding is over; nothing more is done.
    Stop,
    /// The report does not fit where seeding stands; nothing is done.
    Wait,
}

/// A step of seeding: the step it moves to and the action it asks for.
pub open spec fn seed_next_spec(step: SeedStep, event: SeedEvent) -> (SeedStep, SeedAction) {
    match (step, event) {
        (SeedStep::LookingUp, SeedEvent::OrganizationFound(true)) => (SeedStep::Finished, SeedAction::Stop),
        (SeedStep::LookingUp, SeedEvent::OrganizationFound(false)) => (
            SeedStep::InsertingOrganization,
            SeedAction::InsertOrganization,
        ),
        (SeedStep::InsertingOrganization, SeedEvent::Inserted) => (
            SeedStep::InsertingApplication,
            SeedAction::InsertApplication,
        ),
        (SeedStep::InsertingApplication, SeedEvent::Inserted) => (
            SeedStep::Finished,
            SeedAction::PrintCreated,
        ),
        (s, _) => (s, SeedAction::Wait),
    }
}

/// Takes seeding one step further on what the caller reports.
pub fn seed_next(step: SeedStep, event: SeedEvent) -> (res: (SeedStep, SeedAction))
    ensures
        res == seed_next_spec(step, event),
{
    match (step, event) {
        (SeedStep::LookingUp, SeedEvent::OrganizationFound(true)) => (SeedStep::Finished, SeedAction::Stop),
        (SeedStep::LookingUp, SeedEvent::OrganizationFound(false)) => (
            SeedStep::InsertingOrganization,
            SeedAction::InsertOrganization,
        ),
        (SeedStep::InsertingOrganization, SeedEvent::Inserted) => (
            SeedStep::InsertingApplication,
            SeedAction::InsertApplication,
        ),
        (SeedStep::InsertingApplication, SeedEvent::Inserted) => (
            SeedStep::Finished,
            SeedAction::PrintCreated,
        ),
        (s, _) => (s, SeedAction::Wait),
    }
}

/// Seeding inserts nothing once an organization of the core name was
/// found, inserts the application only right after the organization,
/// prints only after the application, and does nothing once finished.
pub proof fn law_seed_order(step: SeedStep, event: SeedEvent)
    ensures
        step == SeedStep::LookingUp && event == SeedEvent::OrganizationFound(true) ==> seed_next_spec(
            step,
            event,
        ) == (SeedStep::Finished, SeedAction::Stop),
        seed_next_spec(step, event).1 == SeedAction::InsertOrganization ==> step == SeedStep::LookingUp
            && event == SeedEvent::OrganizationFound(false),
        seed_next_spec(step, event).1 == SeedAction::InsertApplication ==> step
            == SeedStep::InsertingOrganization && event == SeedEvent::Inserted,
        seed_next_spec(step, event).1 == SeedAction::PrintCreated ==> step
            == SeedStep::InsertingApplication && event == SeedEvent::Inserted,
        step == SeedStep::Finished ==> seed_next_spec(step, event) == (SeedStep::Finished, SeedAction::Wait),
{
}

/// The core organization row for an id and a creation time, in
/// milliseconds since the epoch.
pub fn core_organization(organization_id: u128, now: i64) -> (res: Organization)
    ensures
        res.organization_id == organization_id,
        res.name@ == "Axcelium"@,
        res.slug@ == "axcelium"@,
        res.contact_email@ == "support@axcelium.io"@,
        res.is_active,
        res.created_at == now,
        res.updated_at == now,
{
    Organization {
        organization_id,
        name: "Axcelium".to_owned(),
        slug: "axcelium".to_owned(),
        contact_email: "support@axcelium.io".to_owned(),
        is_active: true,
        created_at: now,
        updated_at: now,
    }
}

/// The core organization row under a fresh random (version 4) id, created
/// now.
pub fn create_organization() -> (res: Organization)
    ensures
        res.organization_id & 0xF000_C000_0000_0000_0000u128 == 0x4000_8000_0000_0000_0000u128,
        res.name@ == "Axcelium"@,
        res.slug@ == "axcelium"@,
        res.contact_email@ == "support@axcelium.io"@,
        res.is_active,
        res.created_at == res.updated_at,
{
    let organization_id = new_uuid_v4();
    let now = now_millis();
    core_organization(organization_id, now)
}

/// Hashes a password with a fresh random salt, into an Argon2id PHC
/// string.
pub fn hash_password(password: &str) -> (res: RepositoryResult<String>)
    ensures
        exists|salt: Seq<char>| generated_salt(salt) && hash_view(res) == hash_spec(password@, salt),
        encode_utf8(password@).len() <= max_password_len() ==> res is Ok,
        res matches Ok(h) ==> verify_spec(h@, password@) == Ok::<bool, (Seq<char>, u16)>(true),
        res matches Ok(h) ==> has_prefix(h@, argon2id_prefix()),
{
    PasswordHasherImpl::new().hash(password)
}

/// The core application row of an organization, given its ids, the hash of
/// its client secret and its creation time.
pub fn core_application(
    organization_id: u128,
    application_id: u128,
    client_id: u128,
    hashed_client_secret: String,
    now: i64,
) -> (res: CoreApplicationRow)
    ensures
        res.organization_id == organization_id,
        res.application_id == application_id,
        res.name@ == "Axcelium Core"@,
        res.description@ == "The core SSO platform of Axcelium."@,
        res.client_id == client_id,
        res.hashed_client_secret == hashed_client_secret,
        res.created_at == now,
        res.updated_at == now,
{
    CoreApplicationRow {
        organization_id,
        application_id,
        name: "Axcelium Core".to_owned(),
        description: "The core SSO platform of Axcelium.".to_owned(),
        client_id,
        hashed_client_secret,
        created_at: now,
        updated_at: now,
    }
}

/// The core application row of an organization under fresh random
/// (version 4) ids, with the client secret, a fresh random UUID, that it
/// hashes under a freshly drawn salt: the stored hash is the Argon2id PHC
/// string of the secret's text, which checks against it. The secret's text
/// is short enough to be hashed under any drawn salt, so this never fails.
pub fn create_application(organization_id: u128) -> (res: RepositoryResult<(CoreApplicationRow, u128)>)
    ensures
        res matches Ok((row, secret)) ==> {
            &&& row.organization_id == organization_id
            &&& row.application_id & 0xF000_C000_0000_0000_0000u128 == 0x4000_8000_0000_0000_0000u128
            &&& row.client_id & 0xF000_C000_0000_0000_0000u128 == 0x4000_8000_0000_0000_0000u128
            &&& secret & 0xF000_C000_0000_0000_0000u128 == 0x4000_8000_0000_0000_0000u128
            &&& row.name@ == "Axcelium Core"@
            &&& row.description@ == "The core SSO platform of Axcelium."@
            &&& row.created_at == row.updated_at
            &&& exists|salt: Seq<char>| generated_salt(salt) && hash_spec(uuid_text(secret), salt) == Ok::<
                Seq<char>,
                (Seq<char>, u16),
            >(row.hashed_client_secret@)
            &&& verify_spec(row.hashed_client_secret@, uuid_text(secret)) == Ok::<
                bool,
                (Seq<char>, u16),
            >(true)
            &&& has_prefix(row.hashed_client_secret@, argon2id_prefix())
            &&& row.hashed_client_secret@ != uuid_text(secret)
        },
        res is Ok,
{
    let application_id = new_uuid_v4();
    let client_id = new_uuid_v4();
    let client_secret = new_uuid_v4();
    let secret_text = uuid_to_string(client_secret);
    proof {
        lemma_hex_digits_no_dollar(client_secret as nat, 32);
        lemma_encode_utf8_len(secret_text@);
    }
    let hashed = match hash_password(secret_text.as_str()) {
        Ok(h) => h,
        Err(e) => return Err(e),
    };
    proof {
        lemma_phc_is_not_uuid_text(hashed@, client_secret);
    }
    let now = now_millis();
    Ok((core_application(organization_id, application_id, client_id, hashed, now), client_secret))
}

/// The hexadecimal digits of a value hold no `$`.
proof fn lemma_hex_digits_no_dollar(v: nat, n: nat)
    ensures
        hex_digits(v, n).len() == n,
        forall|i: int| 0 <= i < n ==> hex_digits(v, n)[i] != '$',
    decreases n,
{
    if n > 0 {
        lemma_hex_digits_no_dollar(v / 16, (n - 1) as nat);
        let d = v % 16;
        assert(hex_digit(d) != '$') by {
            if d < 10 {
                assert(((48 + d) as char) as int == 48 + d);
            } else {
                assert(((87 + d) as char) as int == 87 + d);
            }
        }
    }
}

/// An Argon2id PHC string is never the text of a UUID: it starts with
/// `$`, and a UUID's text with a hexadecimal digit.
proof fn lemma_phc_is_not_uuid_text(h: Seq<char>, u: u128)
    requires
        has_prefix(h, argon2id_prefix()),
    ensures
        h != uuid_text(u),
{
    reveal_strlit("$argon2id$v=19$");
    assert(argon2id_prefix()[0] == '$');
    assert(h[0] == h.take(argon2id_prefix().len() as int)[0]);
    lemma_hex_digits_no_dollar(u as nat, 32);
    assert(uuid_text(u)[0] == hex_digits(u as nat, 32)[0]);
}

/// The lines printed once the core organization and application exist.
pub open spec fn created_lines_spec(
    organization_id: u128,
    application_id: u128,
    client_id: u128,
    client_secret: u128,
) -> Seq<Seq<char>> {
    seq![
        "Organization created with ID: "@ + uuid_text(organization_id),
        "Application created with ID: "@ + uuid_text(application_id),
        "Client ID: "@ + uuid_text(client_id),
        "Client Secret: "@ + uuid_text(client_secret),
    ]
}

/// The printed lines name the created ids: the organization line holds the
/// organization's id, the application line the application's, the client
/// line the client id and the secret line the secret.
pub proof fn law_created_lines_name_their_ids(
    organization_id: u128,
    application_id: u128,
    client_id: u128,
    client_secret: u128,
)
    ensures
        ({
            let lines = created_lines_spec(organization_id, application_id, client_id, client_secret);
            &&& lines.len() == 4
            &&& lines[0] == "Organization created with ID: "@ + uuid_text(organization_id)
            &&& lines[1] == "Application created with ID: "@ + uuid_text(application_id)
            &&& lines[2] == "Client ID: "@ + uuid_text(client_id)
            &&& lines[3] == "Client Secret: "@ + uuid_text(client_secret)
        }),
{
}

/// The lines printed once the core organization and application exist:
/// their ids, the client id and the client secret.
pub fn created_lines(row: &CoreApplicationRow, client_secret: u128) -> (res: Vec<String>)
    ensures
        res@.len() == 4,
        res@[0]@ == "Organization created with ID: "@ + uuid_text(row.organization_id),
        res@[1]@ == "Application created with ID: "@ + uuid_text(row.application_id),
        res@[2]@ == "Client ID: "@ + uuid_text(row.client_id),
        res@[3]@ == "Client Secret: "@ + uuid_text(client_secret),
        res@.map_values(|l: String| l@) == created_lines_spec(
            row.organization_id,
            row.application_id,
            row.client_id,
            client_secret,
        ),
{
    let mut lines: Vec<String> = Vec::new();
    let mut l1 = "Organization created with ID: ".to_owned();
    l1.append(uuid_to_string(row.organization_id).as_str());
    lines.push(l1);
    let mut l2 = "Application created with ID: ".to_owned();
    l2.append(uuid_to_string(row.application_id).as_str());
    lines.push(l2);
    let mut l3 = "Client ID: ".to_owned();
    l3.append(uuid_to_string(row.client_id).as_str());
    lines.push(l3);
    let mut l4 = "Client Secret: ".to_owned();
    l4.append(uuid_to_string(client_secret).as_str());
    lines.push(l4);
    assert(lines@.map_values(|l: String| l@) =~= created_lines_spec(
        row.organization_id,
        row.application_id,
        row.client_id,
        client_secret,
    ));
    lines
}

} // verus!
