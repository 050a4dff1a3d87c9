//! The engine's settings.

use vstd::prelude::*;

verus! {

/// The smallest number of requests that the placeholder and metadata
/// stages keep in flight.
pub const MIN_CONCURRENT_LIMIT: usize = 10;

/// The settings of a run: the server, the authorisation token, the number
/// of download workers, the request-per-second limit, the request timeout
/// in seconds, and the number of requests kept in flight by the
/// placeholder and metadata stages.
#[derive(Debug)]
pub struct Config {
    pub server_address: String,
    pub threads: usize,
    pub token: String,
    pub tpslimit: u32,
    pub concurrent_limit: usize,
    pub timeout: u64,
}

impl Config {
    /// The settings for tests and library use: a local server, no token,
    /// four workers, no rate limit to speak of, a ten-second timeout.
    pub fn default_test_config() -> (r: Config)
        ensures
            r.server_address@ == "http://localhost:5244"@,
            r.threads == 4,
            r.token@ == Seq::<char>::empty(),
            r.tpslimit == u32::MAX,
            r.concurrent_limit == 4,
            r.timeout == 10,
    {
        Config {
            server_address: "http://localhost:5244".to_owned(),
            threads: 4,
            token: String::new(),
            tpslimit: u32::MAX,
            concurrent_limit: 4,
            timeout: 10,
        }
    }

    /// The settings given on the command line; the in-flight limit is the
    /// number of workers, but never under `MIN_CONCURRENT_LIMIT`.
    pub fn from_options(
        server_address: String,
        threads: usize,
        token: String,
        tpslimit: u32,
        timeout: u64,
    ) -> (r: Config)
        ensures
            r.server_address == server_address,
            r.threads == threads,
            r.token == token,
            r.tpslimit == tpslimit,
            r.timeout == timeout,
            r.concurrent_limit == if threads > MIN_CONCURRENT_LIMIT {
                threads
            } else {
                MIN_CONCURRENT_LIMIT
            },
    {
        let concurrent_limit = if threads > MIN_CONCURRENT_LIMIT {
            threads
        } else {
            MIN_CONCURRENT_LIMIT
        };
        Config { server_address, threads, token, tpslimit, concurrent_limit, timeout }
    }

    /// The steady request rate per second: the configured limit, or one
    /// request per second if the limit is zero.
    pub fn requests_per_second(&self) -> (r: u32)
        ensures
            r == if self.tpslimit == 0 {
                1
            } else {
                self.tpslimit
            },
            r >= 1,
    {
        if self.tpslimit == 0 {
            1
        } else {
            self.tpslimit
        }
    }
}

/// The settings in effect: the ones that were set, or the test defaults
/// if none were.
pub fn get_config(configured: Option<Config>) -> (r: Config)
    ensures
        configured matches Some(c) ==> r == c,
        configured is None ==> r.server_address@ == "http://localhost:5244"@ && r.threads == 4
            && r.token@ == Seq::<char>::empty() && r.tpslimit == u32::MAX && r.concurrent_limit
            == 4 && r.timeout == 10,
{
    match configured {
        Some(c) => c,
        None => Config::default_test_config(),
    }
}

} // verus!
