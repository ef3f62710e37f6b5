//! The cache: clients of the cache servers, the keys under which entries are
//! kept, and the cache-aside decisions of the cache layers.
pub mod apporg_cache;
pub mod cache_layer;
pub mod redis;
pub mod refresh_token_cache;
