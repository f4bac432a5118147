//! Keys taken from a shared counter store that increments atomically.
use vstd::prelude::*;
use crate::config::RedisConfig;
use crate::error::{ConstructionError, GeneratorError};

verus! {

#[verifier::external_type_specification]
#[verifier::external_body]
pub struct ExClient(redis::Client);

#[verifier::external_type_specification]
#[verifier::external_body]
pub struct ExRedisError(redis::RedisError);

/// Whether `url` starts with the plain TCP scheme of the counter store,
/// `redis://`.
pub open spec fn has_redis_scheme(url: Seq<char>) -> bool {
    url.len() >= 8 && url.subrange(0, 8) == "redis://"@
}

/// Whether the store client accepts `url`, an address with the `redis://`
/// scheme: it parses as a URL with a host, and its database number and
/// protocol settings, if given, are valid.
pub uninterp spec fn redis_tcp_url_ok(url: Seq<char>) -> bool;

/// Relies on `redis::Client::open`, which parses the address and does not
/// connect. For a `redis://` address the outcome depends on the text alone
/// (URL parsing, then host, port, database and protocol); other schemes
/// depend on the platform (unix sockets) or on the client's features (TLS),
/// and nothing is stated of them.
#[verifier::external_body]
fn open_client(url: &String) -> (r: Result<redis::Client, redis::RedisError>)
    ensures
        has_redis_scheme(url@) ==> (r is Ok <==> redis_tcp_url_ok(url@)),
{
    redis::Client::open(url.as_str())
}

/// How one increment of the counter store failed.
#[derive(Debug, Clone)]
pub struct CounterFailure {
    /// The request timed out.
    pub timed_out: bool,
    /// The store refused the connection.
    pub connection_refused: bool,
    /// The connection dropped.
    pub connection_dropped: bool,
    /// What the store reported.
    pub detail: String,
}

/// Whether a counter failure is a failure to reach the store.
pub open spec fn is_connection_failure(f: CounterFailure) -> bool {
    f.timed_out || f.connection_refused || f.connection_dropped
}

/// The generator failure that a counter failure surfaces as.
pub open spec fn counter_error(f: CounterFailure) -> GeneratorError {
    if is_connection_failure(f) {
        GeneratorError::ConnectionError
    } else {
        GeneratorError::UnknownError(f.detail)
    }
}

/// The integer result of a generator that reads the counter: the counter
/// value passed through, or its failure surfaced unchanged.
pub open spec fn counter_result(counter: Result<u64, CounterFailure>) -> Result<u64, GeneratorError> {
    match counter {
        Ok(c) => Ok(c),
        Err(f) => Err(counter_error(f)),
    }
}

impl CounterFailure {
    /// Classifies the failure: a timeout, a refused or a dropped connection is
    /// a connection failure; anything else is unknown, with its detail kept.
    pub fn into_generator_error(self) -> (r: GeneratorError)
        ensures
            r == counter_error(self),
    {
        if self.timed_out || self.connection_refused || self.connection_dropped {
            GeneratorError::ConnectionError
        } else {
            GeneratorError::UnknownError(self.detail)
        }
    }
}

/// Generates key numbers by incrementing a shared counter.
#[derive(Debug)]
pub struct RedisGenerator {
    pool: redis::Client,
    url: String,
}

impl RedisGenerator {
    /// The counter store address the generator was built for.
    pub closed spec fn address(self) -> Seq<char> {
        self.url@
    }

    /// The counter store address the generator was built for.
    pub fn url(&self) -> (r: &str)
        ensures
            r@ == self.address(),
    {
        self.url.as_str()
    }

    /// Creates a generator for the counter store at `config.url`; fails when
    /// the store client does not accept the address. No connection is made.
    pub fn new(config: &RedisConfig) -> (r: Result<Self, ConstructionError>)
        ensures
            has_redis_scheme(config.url@) ==> (r is Ok <==> redis_tcp_url_ok(config.url@)),
            r matches Ok(g) ==> g.address() == config.url@,
            r is Err ==> r == Err::<Self, ConstructionError>(ConstructionError::InvalidCounterAddress),
    {
        match open_client(&config.url) {
            Ok(client) => Ok(RedisGenerator { pool: client, url: config.url.clone() }),
            Err(_) => Err(ConstructionError::InvalidCounterAddress),
        }
    }

    /// The client of the counter store, for the caller that performs the
    /// increment.
    pub fn client(&self) -> &redis::Client {
        &self.pool
    }

    /// The key number for the outcome of one increment: the new counter value,
    /// or the failure surfaced unchanged.
    pub fn generate_key(&self, counter: Result<u64, CounterFailure>) -> (r: Result<u64, GeneratorError>)
        ensures
            r == counter_result(counter),
    {
        match counter {
            Ok(c) => Ok(c),
            Err(f) => Err(f.into_generator_error()),
        }
    }
}

} // verus!
