//! The cache of refresh tokens, by token id.
use crate::ids::{uuid_text, uuid_to_string};
use std::sync::Arc;
use vstd::prelude::*;
use vstd::string::*;

verus! {

/// The cache key of a refresh token.
pub open spec fn refresh_token_key_text(token_id: u128) -> Seq<char> {
    "refresh_token:"@ + uuid_text(token_id)
}

/// The cache key of a refresh token: `refresh_token:` followed by the id's
/// hyphenated text.
pub fn refresh_token_cache_key(token_id: u128) -> (res: String)
    ensures
        res@ == refresh_token_key_text(token_id),
{
    let mut key = "refresh_token:".to_owned();
    let id = uuid_to_string(token_id);
    key.append(id.as_str());
    key
}

/// The cache of refresh tokens: a cache client and the time to live, in
/// seconds, of the entries it writes.
pub struct RefreshTokenCacheImpl {
    cache: Arc<redis::Client>,
    ttl: u64,
}

impl RefreshTokenCacheImpl {
    /// The time to live of the entries, in seconds.
    pub closed spec fn spec_ttl(&self) -> u64 {
        self.ttl
    }

    /// The cache client.
    pub closed spec fn spec_cache(&self) -> Arc<redis::Client> {
        self.cache
    }

    pub fn new(cache: Arc<redis::Client>, ttl: u64) -> (res: Self)
        ensures
            res.spec_cache() == cache,
            res.spec_ttl() == ttl,
    {
        RefreshTokenCacheImpl { cache, ttl }
    }

    /// The time to live of the entries, in seconds.
    pub fn ttl(&self) -> (res: u64)
        ensures
            res == self.spec_ttl(),
    {
        self.ttl
    }

    /// The cache client.
    pub fn cache(&self) -> (res: &Arc<redis::Client>)
        ensures
            *res == self.spec_cache(),
    {
        &self.cache
    }
}

} // verus!
