//! The cache of applications with their organizations, by client id.
use crate::ids::{uuid_text, uuid_to_string};
use std::sync::Arc;
use vstd::prelude::*;
use vstd::string::*;

verus! {

/// The cache key of an application by client id.
pub open spec fn apporg_key_text(client_id: u128) -> Seq<char> {
    "apporg:client_id:"@ + uuid_text(client_id)
}

/// The cache key of an application by client id: `apporg:client_id:`
/// followed by the id's hyphenated text.
pub fn apporg_cache_key(client_id: u128) -> (res: String)
    ensures
        res@ == apporg_key_text(client_id),
{
    let mut key = "apporg:client_id:".to_owned();
    let id = uuid_to_string(client_id);
    key.append(id.as_str());
    key
}

/// The cache of applications by client id: a cache client and the time to
/// live, in seconds, of the entries it writes.
pub struct ApplicationsOrganizationByClientIdCacheImpl {
    cache: Arc<redis::Client>,
    ttl: u64,
}

impl ApplicationsOrganizationByClientIdCacheImpl {
    /// The time to live of the entries, in seconds.
    pub closed spec fn spec_ttl(&self) -> u64 {
        self.ttl
    }

    /// The cache client.
    pub closed spec fn spec_cache(&self) -> Arc<redis::Client> {
        self.cache
    }

    pub fn new(cache: Arc<redis::Client>, ttl: u64) -> (res: Self)
        ensures
            res.spec_cache() == cache,
            res.spec_ttl() == ttl,
    {
        ApplicationsOrganizationByClientIdCacheImpl { cache, ttl }
    }

    /// The time to live of the entries, in seconds.
    pub fn ttl(&self) -> (res: u64)
        ensures
            res == self.spec_ttl(),
    {
        self.ttl
    }

    /// The cache client.
    pub fn cache(&self) -> (res: &Arc<redis::Client>)
        ensures
            *res == self.spec_cache(),
    {
        &self.cache
    }
}

} // verus!
