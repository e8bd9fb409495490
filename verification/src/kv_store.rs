//! Keys and values of the key-value store, and its client.

use vstd::prelude::*;

use crate::error::{AppError, AppErrorView};
use crate::text::{decimal, decimal_text};

verus! {

/// A key of the store; its value type reads back from the stored text.
pub trait RedisKey {
    type Value: RedisValue + TryFrom<String, Error = AppError>;

    /// The text under which the key is stored.
    spec fn key_text(&self) -> Seq<char>;

    fn inner(&self) -> (text: String)
        ensures
            text@ == self.key_text(),
    ;
}

/// A value of the store.
pub trait RedisValue {
    /// The text that is stored for the value.
    spec fn value_text(&self) -> Seq<char>;

    fn inner(&self) -> (text: String)
        ensures
            text@ == self.value_text(),
    ;
}

/// `redis::Client`, a client of the key-value store.
#[verifier::external_type_specification]
#[verifier::external_body]
pub struct ExRedisClient(redis::Client);

/// Where the key-value store listens.
#[derive(Clone, Debug, PartialEq, Eq)]
pub struct RedisConfig {
    pub host: String,
    pub port: u16,
}

/// The URL of the store at `host` and `port`: `redis://host:port`.
pub open spec fn redis_url_text(host: Seq<char>, port: u16) -> Seq<char> {
    "redis://"@ + host + ":"@ + decimal_text(port as nat)
}

/// What `redis::Client::open` gives back for a URL: the client set up for
/// the store that the URL names, or the error for a URL it refuses. It
/// parses the URL and does not connect.
pub uninterp spec fn redis_open(url: Seq<char>) -> Result<redis::Client, redis::RedisError>;

/// Opens a client with `redis::Client::open`, which checks the URL and
/// does not connect. Claimed: the client, or the error, is the one that
/// `redis_open` names for the URL.
#[verifier::external_body]
fn open_client(url: String) -> (res: Result<redis::Client, redis::RedisError>)
    ensures
        res == redis_open(url@),
{
    redis::Client::open(url)
}

/// The URL of the store that `config` names.
pub fn redis_url(config: &RedisConfig) -> (url: String)
    ensures
        url@ == redis_url_text(config.host@, config.port),
{
    let mut url = String::from_str("redis://");
    url.append(config.host.as_str());
    url.append(":");
    url.append(decimal(config.port).as_str());
    url
}

/// A client of the key-value store.
pub struct RedisClient {
    pub client: redis::Client,
}

impl RedisClient {
    /// A client of the store that `config` names: the client opened on the
    /// store's URL, or, when the client refuses that URL, a key-value store
    /// error holding the open error.
    pub fn new(config: &RedisConfig) -> (res: Result<RedisClient, AppError>)
        ensures
            match redis_open(redis_url_text(config.host@, config.port)) {
                Ok(c) => res matches Ok(r) && r.client == c,
                Err(e) => res matches Err(err) && err@ == AppErrorView::KeyValueStoreError(e),
            },
    {
        match open_client(redis_url(config)) {
            Ok(client) => Ok(RedisClient { client }),
            Err(e) => Err(AppError::KeyValueStoreError(e)),
        }
    }
}

} // verus!
