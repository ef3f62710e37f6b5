//! Clients of the cache servers, through the `redis` crate. Opening a client
//! reads its URL and does not connect.
use crate::config::RedisConfig;
use vstd::prelude::*;

verus! {

#[verifier::external_type_specification]
#[verifier::external_body]
pub struct ExRedisClient(redis::Client);

#[verifier::external_type_specification]
#[verifier::external_body]
pub struct ExRedisClusterClient(redis::cluster::ClusterClient);

#[verifier::external_type_specification]
#[verifier::external_body]
pub struct ExRedisError(redis::RedisError);

/// Whether `redis::Client::open` accepts a URL.
pub uninterp spec fn redis_url_accepted(url: Seq<char>) -> bool;

/// Whether `redis::cluster::ClusterClient::new` accepts a list of node URLs.
pub uninterp spec fn redis_cluster_accepted(urls: Seq<Seq<char>>) -> bool;

/// The client that `redis::Client::open` makes of an accepted URL: it holds
/// only the connection information parsed from the URL.
pub uninterp spec fn redis_client_for(url: Seq<char>) -> redis::Client;

/// The client that `redis::cluster::ClusterClient::new` makes of an accepted
/// list of node URLs: the nodes parsed from them and the default parameters.
pub uninterp spec fn redis_cluster_client_for(urls: Seq<Seq<char>>) -> redis::cluster::ClusterClient;

/// Calls `redis::Client::open`. Trusted: it succeeds exactly when the URL is
/// accepted, and the client is then the one `redis_client_for` names.
#[verifier::external_body]
fn redis_client_open(url: &str) -> (res: Result<redis::Client, redis::RedisError>)
    ensures
        res matches Ok(c) ==> c == redis_client_for(url@),
        res is Ok <==> redis_url_accepted(url@),
{
    redis::Client::open(url)
}

/// Calls `redis::cluster::ClusterClient::new`. Trusted: it succeeds exactly
/// when the list of URLs is accepted, and the client is then the one
/// `redis_cluster_client_for` names.
#[verifier::external_body]
fn redis_cluster_client_new(urls: Vec<String>) -> (res: Result<
    redis::cluster::ClusterClient,
    redis::RedisError,
>)
    ensures
        res is Ok <==> redis_cluster_accepted(urls@.map_values(|u: String| u@)),
        res matches Ok(c) ==> c == redis_cluster_client_for(urls@.map_values(|u: String| u@)),
{
    redis::cluster::ClusterClient::new(urls)
}

/// A copy of a list of texts.
fn clone_strings(v: &Vec<String>) -> (res: Vec<String>)
    ensures
        res@ == v@,
{
    let mut out: Vec<String> = Vec::new();
    let mut i: usize = 0;
    while i < v.len()
        invariant
            i <= v@.len(),
            out@ == v@.take(i as int),
        decreases v@.len() - i,
    {
        out.push(v[i].clone());
        i = i + 1;
        assert(out@ =~= v@.take(i as int));
    }
    assert(v@.take(v@.len() as int) =~= v@);
    out
}

/// The URLs of a configuration, taken by views.
pub open spec fn urls_view(cfg: &RedisConfig) -> Seq<Seq<char>> {
    cfg.urls@.map_values(|u: String| u@)
}

/// The client of the first configured server, whose URL must be accepted:
/// the one opened on that URL.
pub fn get_redis_client(cfg: RedisConfig) -> (res: redis::Client)
    requires
        cfg.urls@.len() > 0,
        redis_url_accepted(cfg.urls@[0]@),
    ensures
        res == redis_client_for(cfg.urls@[0]@),
{
    match redis_client_open(cfg.urls[0].as_str()) {
        Ok(client) => client,
        Err(_) => vstd::pervasive::unreached(),
    }
}

/// The client of the first configured server, or `None` when there is no
/// server or its URL is refused.
pub fn try_get_redis_client(cfg: RedisConfig) -> (res: Option<redis::Client>)
    ensures
        res is Some <==> cfg.urls@.len() > 0 && redis_url_accepted(cfg.urls@[0]@),
        res matches Some(c) ==> c == redis_client_for(cfg.urls@[0]@),
{
    if cfg.urls.len() == 0 {
        return None;
    }
    match redis_client_open(cfg.urls[0].as_str()) {
        Ok(_) => Some(get_redis_client(cfg)),
        Err(_) => None,
    }
}

/// The client of the configured cluster, whose URLs must be accepted.
pub fn get_redis_cluster_client(cfg: RedisConfig) -> (res: redis::cluster::ClusterClient)
    requires
        redis_cluster_accepted(urls_view(&cfg)),
    ensures
        res == redis_cluster_client_for(urls_view(&cfg)),
{
    match redis_cluster_client_new(cfg.urls) {
        Ok(client) => client,
        Err(_) => vstd::pervasive::unreached(),
    }
}

/// The client of the configured cluster, or `None` when its URLs are refused.
pub fn try_get_redis_cluster_client(cfg: RedisConfig) -> (res: Option<redis::cluster::ClusterClient>)
    ensures
        res is Some <==> redis_cluster_accepted(urls_view(&cfg)),
        res matches Some(c) ==> c == redis_cluster_client_for(urls_view(&cfg)),
{
    let urls = clone_strings(&cfg.urls);
    match redis_cluster_client_new(urls) {
        Ok(_) => Some(get_redis_cluster_client(cfg)),
        Err(_) => None,
    }
}

} // verus!
