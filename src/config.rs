//! Settings consumed by the watchers, and evaluation of the filter list.
use crate::defaults::{default_host, host, idle_timeout_seconds, poll_time_idle_seconds, poll_time_window_seconds, port};
use crate::filters::{first_match, Filter, FilterResult};
use vstd::prelude::*;

verus! {

/// Where the event server listens.
pub struct ServerConfig {
    pub port: u16,
    pub host: String,
}

impl Default for ServerConfig {
    fn default() -> (r: ServerConfig)
        ensures
            r.port == 5600,
            r.host@ == default_host(),
    {
        ServerConfig { port: port(), host: host() }
    }
}

/// Timing and filter settings of the watchers.
pub struct ClientConfig {
    pub idle_timeout_seconds: u32,
    pub poll_time_idle_seconds: u32,
    pub poll_time_window_seconds: u32,
    pub filters: Vec<Filter>,
}

impl Default for ClientConfig {
    fn default() -> (r: ClientConfig)
        ensures
            r.idle_timeout_seconds == 180,
            r.poll_time_idle_seconds == 5,
            r.poll_time_window_seconds == 1,
            r.filters@.len() == 0,
    {
        ClientConfig {
            idle_timeout_seconds: idle_timeout_seconds(),
            poll_time_idle_seconds: poll_time_idle_seconds(),
            poll_time_window_seconds: poll_time_window_seconds(),
            filters: Vec::new(),
        }
    }
}

impl ClientConfig {
    /// The idle timeout in seconds.
    pub fn get_idle_timeout(&self) -> (r: u64)
        ensures
            r == self.idle_timeout_seconds,
    {
        self.idle_timeout_seconds as u64
    }

    /// The period of idle polls in seconds.
    pub fn get_poll_time_idle(&self) -> (r: u64)
        ensures
            r == self.poll_time_idle_seconds,
    {
        self.poll_time_idle_seconds as u64
    }

    /// The period of active-window polls in seconds.
    pub fn get_poll_time_window(&self) -> (r: u64)
        ensures
            r == self.poll_time_window_seconds,
    {
        self.poll_time_window_seconds as u64
    }
}

/// The settings of one watcher process. Durations are in seconds.
pub struct Config {
    pub port: u16,
    pub host: String,
    pub idle_timeout: u32,
    pub poll_time_idle: u32,
    pub poll_time_window: u32,
    pub no_server: bool,
    pub filters: Vec<Filter>,
}

impl Config {
    /// The host to connect to. `ipv4_first_octet` is the first octet of
    /// `host` when `host` is an IPv4 address: an address `0.x.x.x` means
    /// this machine.
    pub fn client_host(&self, ipv4_first_octet: Option<u8>) -> (r: String)
        ensures
            r@ == (if ipv4_first_octet == Some(0u8) { default_host() } else { self.host@ }),
    {
        match ipv4_first_octet {
            Some(0) => host(),
            _ => self.host.clone(),
        }
    }

    /// Runs the filter list over an observation: the first rule that matches
    /// decides; when none does, the observation is reported as it is.
    pub fn match_window_data(&self, app_id: &str, title: &str) -> (r: FilterResult)
        ensures
            r@ == first_match(self.filters@, app_id@, title@),
    {
        let n = self.filters.len();
        let mut i: usize = 0;
        assert(self.filters@.subrange(0, n as int) =~= self.filters@);
        while i < n
            invariant
                n == self.filters@.len(),
                i <= n,
                first_match(self.filters@, app_id@, title@) == first_match(
                    self.filters@.subrange(i as int, n as int),
                    app_id@,
                    title@,
                ),
            decreases n - i,
        {
            let result = self.filters[i].apply(app_id, title);
            proof {
                let rest = self.filters@.subrange(i as int, n as int);
                assert(rest[0] == self.filters@[i as int]);
                assert(rest.drop_first() =~= self.filters@.subrange(i + 1, n as int));
            }
            match result {
                FilterResult::Skip => {},
                _ => {
                    return result;
                },
            }
            i += 1;
        }
        proof {
            assert(self.filters@.subrange(n as int, n as int).len() == 0);
        }
        FilterResult::Skip
    }
}

} // verus!
