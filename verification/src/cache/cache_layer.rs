//! The cache layers: reads go to the cache first and, on a miss, to the
//! database, whose answer is cached before it is returned; writes go to the
//! database and then to the cache. The calls to the cache and the database
//! are the caller's: each step takes what the previous call answered and
//! says what to do next.
use crate::domain::AppOrgByClientId;
use crate::errors::{unit_view, RepositoryError, RepositoryResult};
use crate::models::refresh_token::RefreshTokenModel;
use vstd::prelude::*;

verus! {

/// What a lookup answered, taken by views.
pub open spec fn apporg_lookup_view(r: RepositoryResult<Option<AppOrgByClientId>>) -> Result<
    Option<AppOrgByClientId>,
    (Seq<char>, u16),
> {
    match r {
        Ok(v) => Ok(v),
        Err(e) => Err(e@),
    }
}

/// The next step of finding an application by client id.
pub enum FindApporgStep {
    /// Answer this to the caller.
    Answer(RepositoryResult<Option<AppOrgByClientId>>),
    /// Look the client id up in the database.
    QueryDatabase(u128),
    /// Write this entry to the cache, then answer it.
    CacheThenAnswer(AppOrgByClientId),
}

/// The step after the cache was read: an error or a hit is answered as it
/// is; a miss queries the database for the same client id.
pub open spec fn after_cache_spec(client_id: u128, cached: Result<Option<AppOrgByClientId>, (Seq<char>, u16)>, step: FindApporgStep) -> bool {
    match cached {
        Err(e) => step matches FindApporgStep::Answer(r) && apporg_lookup_view(r) == Err::<
            Option<AppOrgByClientId>,
            (Seq<char>, u16),
        >(e),
        Ok(Some(d)) => step matches FindApporgStep::Answer(r) && apporg_lookup_view(r) == Ok::<
            Option<AppOrgByClientId>,
            (Seq<char>, u16),
        >(Some(d)),
        Ok(None) => step == FindApporgStep::QueryDatabase(client_id),
    }
}

/// The step after the database was read: an error or an absent entry is
/// answered as it is; a found entry is cached and then answered.
pub open spec fn after_database_spec(found: Result<Option<AppOrgByClientId>, (Seq<char>, u16)>, step: FindApporgStep) -> bool {
    match found {
        Err(e) => step matches FindApporgStep::Answer(r) && apporg_lookup_view(r) == Err::<
            Option<AppOrgByClientId>,
            (Seq<char>, u16),
        >(e),
        Ok(None) => step matches FindApporgStep::Answer(r) && apporg_lookup_view(r) == Ok::<
            Option<AppOrgByClientId>,
            (Seq<char>, u16),
        >(None),
        Ok(Some(d)) => step == FindApporgStep::CacheThenAnswer(d),
    }
}

/// The cache layer of applications by client id.
pub struct ApplicationsOrganizationByClientIdCacheLayerImpl;

impl ApplicationsOrganizationByClientIdCacheLayerImpl {
    pub fn new() -> (res: Self) {
        ApplicationsOrganizationByClientIdCacheLayerImpl
    }

    /// The first step of finding an application: read the cache.
    pub fn find_after_cache(&self, client_id: u128, cached: RepositoryResult<Option<AppOrgByClientId>>) -> (res: FindApporgStep)
        ensures
            after_cache_spec(client_id, apporg_lookup_view(cached), res),
    {
        match cached {
            Err(e) => FindApporgStep::Answer(Err(e)),
            Ok(Some(data)) => FindApporgStep::Answer(Ok(Some(data))),
            Ok(None) => FindApporgStep::QueryDatabase(client_id),
        }
    }

    /// The step after a cache miss: what the database found.
    pub fn find_after_database(&self, found: RepositoryResult<Option<AppOrgByClientId>>) -> (res: FindApporgStep)
        ensures
            after_database_spec(apporg_lookup_view(found), res),
    {
        match found {
            Err(e) => FindApporgStep::Answer(Err(e)),
            Ok(None) => FindApporgStep::Answer(Ok(None)),
            Ok(Some(data)) => FindApporgStep::CacheThenAnswer(data),
        }
    }

    /// The answer after the entry found in the database was written to the
    /// cache: the entry, unless the write failed.
    pub fn find_after_cache_write(&self, written: RepositoryResult<()>, data: AppOrgByClientId) -> (res: RepositoryResult<Option<AppOrgByClientId>>)
        ensures
            apporg_lookup_view(res) == after_write_spec(unit_view(written), data),
    {
        match written {
            Ok(()) => Ok(Some(data)),
            Err(e) => Err(e),
        }
    }
}

/// What a cache-aside read answers, given what the cache read, the
/// database read and the cache write answered: the cache's error or hit;
/// on a miss the database's error or absence, or its entry once cached.
pub open spec fn cache_aside_answer(
    cached: Result<Option<AppOrgByClientId>, (Seq<char>, u16)>,
    found: Result<Option<AppOrgByClientId>, (Seq<char>, u16)>,
    written: Result<(), (Seq<char>, u16)>,
) -> Result<Option<AppOrgByClientId>, (Seq<char>, u16)> {
    match cached {
        Err(e) => Err(e),
        Ok(Some(d)) => Ok(Some(d)),
        Ok(None) => match found {
            Err(e) => Err(e),
            Ok(None) => Ok(None),
            Ok(Some(d)) => match written {
                Ok(()) => Ok(Some(d)),
                Err(e) => Err(e),
            },
        },
    }
}

/// The answer of a cache write: the entry, or the write's error.
pub open spec fn after_write_spec(
    written: Result<(), (Seq<char>, u16)>,
    data: AppOrgByClientId,
) -> Result<Option<AppOrgByClientId>, (Seq<char>, u16)> {
    match written {
        Ok(()) => Ok(Some(data)),
        Err(e) => Err(e),
    }
}

/// A cache-aside read, run step by step as `find_after_cache`,
/// `find_after_database` and `find_after_cache_write` decide, answers
/// `cache_aside_answer`. So it answers an entry only where the cache held
/// it, or the cache missed, the database held it and writing it to the
/// cache succeeded; a cache hit or a cache error never reaches the
/// database; and nothing is written to the cache but what the database
/// found.
pub proof fn law_cache_aside_answers(
    client_id: u128,
    cached: Result<Option<AppOrgByClientId>, (Seq<char>, u16)>,
    first: FindApporgStep,
    found: Result<Option<AppOrgByClientId>, (Seq<char>, u16)>,
    second: FindApporgStep,
    written: Result<(), (Seq<char>, u16)>,
    answer: Result<Option<AppOrgByClientId>, (Seq<char>, u16)>,
)
    requires
        after_cache_spec(client_id, cached, first),
        first is QueryDatabase ==> after_database_spec(found, second),
        first matches FindApporgStep::Answer(r) ==> answer == apporg_lookup_view(r),
        first is QueryDatabase ==> match second {
            FindApporgStep::Answer(r) => answer == apporg_lookup_view(r),
            FindApporgStep::CacheThenAnswer(d) => answer == after_write_spec(written, d),
            FindApporgStep::QueryDatabase(_) => true,
        },
    ensures
        answer == cache_aside_answer(cached, found, written),
        first is QueryDatabase <==> cached == Ok::<Option<AppOrgByClientId>, (Seq<char>, u16)>(None),
        first is QueryDatabase ==> first == FindApporgStep::QueryDatabase(client_id),
        first is QueryDatabase ==> (second matches FindApporgStep::CacheThenAnswer(d) ==> found
            == Ok::<Option<AppOrgByClientId>, (Seq<char>, u16)>(Some(d))),
        answer matches Ok(Some(d)) ==> cached == Ok::<Option<AppOrgByClientId>, (Seq<char>, u16)>(
            Some(d),
        ) || (cached == Ok::<Option<AppOrgByClientId>, (Seq<char>, u16)>(None) && found == Ok::<
            Option<AppOrgByClientId>,
            (Seq<char>, u16),
        >(Some(d)) && written is Ok),
{
}

/// The next step of creating a refresh token.
pub enum CreateRefreshTokenStep {
    /// Answer this error to the caller.
    Fail(RepositoryError),
    /// Write the token to the cache and answer what the write answers.
    CacheToken(RefreshTokenModel),
}

/// The cache layer of refresh tokens.
pub struct RefreshTokenCacheLayerRepositoryImpl;

impl RefreshTokenCacheLayerRepositoryImpl {
    pub fn new() -> (res: Self) {
        RefreshTokenCacheLayerRepositoryImpl
    }

    /// The step after the token was written to the database: a failure is
    /// answered, a success caches the same token.
    pub fn create_after_database(&self, created: RepositoryResult<()>, rt: RefreshTokenModel) -> (res: CreateRefreshTokenStep)
        ensures
            match created {
                Ok(()) => res == CreateRefreshTokenStep::CacheToken(rt),
                Err(e) => res matches CreateRefreshTokenStep::Fail(f) && f@ == e@,
            },
    {
        match created {
            Ok(()) => CreateRefreshTokenStep::CacheToken(rt),
            Err(e) => CreateRefreshTokenStep::Fail(e),
        }
    }
}

} // verus!
