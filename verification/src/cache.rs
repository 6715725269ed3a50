use vstd::prelude::*;

use crate::text::push_text;

verus! {

#[verifier::external_type_specification]
#[verifier::external_body]
pub struct ExRedisClient(redis::Client);

/// Whether `redis::Client::open` accepts the URL (it parses the URL into
/// connection information and does not connect).
pub uninterp spec fn redis_url_accepted(url: Seq<char>) -> bool;

/// The client that `redis::Client::open` makes for an accepted URL: the
/// connection information parsed from the URL alone (it does not connect).
pub uninterp spec fn redis_client_for(url: Seq<char>) -> redis::Client;

/// `redis::Client::open(url).ok()`. Claims that a client comes back exactly
/// where `redis_url_accepted` holds of the URL, and that it is the client
/// `redis_client_for` names for that URL.
#[verifier::external_body]
fn open_redis(url: &str) -> (r: Option<redis::Client>)
    ensures
        r is Some <==> redis_url_accepted(url@),
        r matches Some(c) ==> c == redis_client_for(url@),
{
    redis::Client::open(url).ok()
}

/// The client for the Redis at `redis_url`. A URL that redis does not
/// accept is outside what this function is for (see [`try_init_client`]).
pub fn init_client(redis_url: &str) -> (r: redis::Client)
    requires
        redis_url_accepted(redis_url@),
    ensures
        r == redis_client_for(redis_url@),
{
    let opened = open_redis(redis_url);
    opened.unwrap()
}

/// The client for the Redis at `redis_url`, or `None` where redis refuses the URL.
/// The URL is read once to test it and once more by [`init_client`]; reading
/// it only parses it, no connection is made.
pub fn try_init_client(redis_url: &str) -> (r: Option<redis::Client>)
    ensures
        r is Some <==> redis_url_accepted(redis_url@),
        r matches Some(c) ==> c == redis_client_for(redis_url@),
{
    match open_redis(redis_url) {
        Some(_) => Some(init_client(redis_url)),
        None => None,
    }
}

/// How long a cached count lives, in seconds (five minutes).
pub const CACHE_TTL_SECS: u64 = 300;

/// The key under which the like count of a piece of content is cached:
/// `likes:count:{content_type}:{content_id}`.
pub open spec fn cache_key_text(content_type: Seq<char>, content_id: Seq<char>) -> Seq<char> {
    "likes:count:"@ + content_type + ":"@ + content_id
}

/// The cache key of the like count of a piece of content.
pub fn cache_key(content_type: &str, content_id: &str) -> (r: String)
    ensures
        r@ == cache_key_text(content_type@, content_id@),
{
    let mut key = String::from_str("likes:count:");
    push_text(&mut key, content_type);
    push_text(&mut key, ":");
    push_text(&mut key, content_id);
    key
}

} // verus!
