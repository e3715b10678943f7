//! Connection pool settings and request statistics.
use vstd::prelude::*;

verus! {

/// A span of time in whole seconds.
#[derive(Clone, Copy, PartialEq, Eq, Structural)]
pub struct Seconds(pub u64);

impl Seconds {
    pub fn from_secs(s: u64) -> (r: Self)
        ensures
            r.0 == s,
    {
        Seconds(s)
    }

    pub fn as_secs(&self) -> (r: u64)
        ensures
            r == self.0,
    {
        self.0
    }
}

/// Settings of the HTTP connection pool.
pub struct ConnectionPoolConfig {
    pub max_idle_connections: usize,
    pub idle_timeout: Seconds,
    pub connection_timeout: Seconds,
    pub request_timeout: Seconds,
    pub tcp_keepalive: Option<Seconds>,
}

impl Default for ConnectionPoolConfig {
    /// Ten idle connections kept for 90 s; 10 s to connect, 30 s per
    /// request, TCP keep-alive every 30 s.
    fn default() -> (r: Self)
        ensures
            r.max_idle_connections == 10,
            r.idle_timeout.0 == 90,
            r.connection_timeout.0 == 10,
            r.request_timeout.0 == 30,
            r.tcp_keepalive == Some(Seconds(30)),
    {
        ConnectionPoolConfig {
            max_idle_connections: 10,
            idle_timeout: Seconds(90),
            connection_timeout: Seconds(10),
            request_timeout: Seconds(30),
            tcp_keepalive: Some(Seconds(30)),
        }
    }
}

impl ConnectionPoolConfig {
    /// The default settings with the given request timeout.
    pub fn with_request_timeout(timeout_seconds: u64) -> (r: Self)
        ensures
            r.max_idle_connections == 10,
            r.idle_timeout.0 == 90,
            r.connection_timeout.0 == 10,
            r.request_timeout.0 == timeout_seconds,
            r.tcp_keepalive == Some(Seconds(30)),
    {
        ConnectionPoolConfig {
            max_idle_connections: 10,
            idle_timeout: Seconds(90),
            connection_timeout: Seconds(10),
            request_timeout: Seconds(timeout_seconds),
            tcp_keepalive: Some(Seconds(30)),
        }
    }
}

/// Request statistics; `T` is the clock reading of the last request.
pub struct ConnectionStats<T> {
    pub total_requests: u64,
    pub failed_requests: u64,
    pub active_connections: usize,
    pub last_request: Option<T>,
}

impl<T> ConnectionStats<T> {
    /// No request seen yet.
    pub fn new() -> (r: Self)
        ensures
            r.total_requests == 0,
            r.failed_requests == 0,
            r.active_connections == 0,
            r.last_request is None,
    {
        ConnectionStats { total_requests: 0, failed_requests: 0, active_connections: 0, last_request: None }
    }

    /// Counts a request made at `at`, and its failure when it failed.
    pub fn record_request(&mut self, success: bool, at: T)
        requires
            old(self).total_requests < u64::MAX,
            old(self).failed_requests < u64::MAX,
        ensures
            final(self).total_requests == old(self).total_requests + 1,
            final(self).failed_requests == old(self).failed_requests + if success { 0int } else { 1int },
            final(self).active_connections == old(self).active_connections,
            final(self).last_request == Some(at),
            old(self).failed_requests <= old(self).total_requests ==> final(self).failed_requests
                <= final(self).total_requests,
    {
        self.total_requests = self.total_requests + 1;
        if !success {
            self.failed_requests = self.failed_requests + 1;
        }
        self.last_request = Some(at);
    }
}

} // verus!
