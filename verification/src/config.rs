use vstd::prelude::*;
use crate::error::ClientError;

verus! {

/// Seconds a request may take when the caller names no limit.
pub const DEFAULT_TIMEOUT_SECS: u64 = 30;

/// The characters of a string that may be absent.
pub open spec fn text_of(s: Option<String>) -> Option<Seq<char>> {
    match s {
        Some(s) => Some(s@),
        None => None,
    }
}

/// What a caller may say about the client it wants: both entries are
/// optional.
pub struct ClientOpts {
    /// The correlation server to register with; without one, the default
    /// public server is used.
    pub server: Option<String>,
    /// The limit on each request, in seconds.
    pub timeout: Option<u64>,
}

impl Default for ClientOpts {
    /// No server, and the default limit.
    fn default() -> (r: ClientOpts)
        ensures
            r.server is None,
            r.timeout == Some(DEFAULT_TIMEOUT_SECS),
    {
        ClientOpts { server: None, timeout: Some(DEFAULT_TIMEOUT_SECS) }
    }
}

impl ClientOpts {
    /// The options for what a caller supplied: each value that is there is
    /// taken, each that is absent falls back to the default.
    pub fn overlay(server: Option<String>, timeout: Option<u64>) -> (r: ClientOpts)
        ensures
            text_of(r.server) == text_of(server),
            r.timeout == Some(
                match timeout {
                    Some(t) => t,
                    None => DEFAULT_TIMEOUT_SECS,
                },
            ),
    {
        let defaults = ClientOpts::default();
        let server = match server {
            Some(s) => Some(s),
            None => defaults.server,
        };
        let timeout = match timeout {
            Some(t) => Some(t),
            None => defaults.timeout,
        };
        ClientOpts { server, timeout }
    }

    /// The limit that these options ask for, in seconds.
    pub open spec fn effective_timeout(&self) -> u64 {
        match self.timeout {
            Some(t) => t,
            None => DEFAULT_TIMEOUT_SECS,
        }
    }

    /// The configuration that these options describe. A limit of zero
    /// seconds leaves no time for a handshake, so it is refused as a failed
    /// registration; every other input gives a configuration.
    pub fn resolve(self) -> (r: Result<ClientConfig, ClientError>)
        ensures
            match r {
                Ok(config) => {
                    &&& self.effective_timeout() > 0
                    &&& config.timeout() == self.effective_timeout()
                    &&& config.server() == text_of(self.server)
                },
                Err(e) => self.effective_timeout() == 0 && e == ClientError::RegistrationFailed,
            },
    {
        let timeout = match self.timeout {
            Some(t) => t,
            None => DEFAULT_TIMEOUT_SECS,
        };
        ClientConfig::new(self.server, timeout)
    }
}

/// A validated configuration: an optional server and a positive limit.
/// Structured logs are always asked for; that is not configurable.
pub struct ClientConfig {
    server: Option<String>,
    timeout_secs: u64,
}

impl ClientConfig {
    #[verifier::type_invariant]
    spec fn positive_timeout(&self) -> bool {
        self.timeout_secs > 0
    }

    /// The server to register with, if one was named.
    pub closed spec fn server(&self) -> Option<Seq<char>> {
        text_of(self.server)
    }

    /// The limit on each request, in seconds.
    pub closed spec fn timeout(&self) -> u64 {
        self.timeout_secs
    }

    /// A configuration with the given server and limit; a limit of zero is
    /// refused.
    pub fn new(server: Option<String>, timeout_secs: u64) -> (r: Result<
        ClientConfig,
        ClientError,
    >)
        ensures
            match r {
                Ok(config) => {
                    &&& timeout_secs > 0
                    &&& config.timeout() == timeout_secs
                    &&& config.server() == text_of(server)
                },
                Err(e) => timeout_secs == 0 && e == ClientError::RegistrationFailed,
            },
    {
        if timeout_secs == 0 {
            Err(ClientError::RegistrationFailed)
        } else {
            Ok(ClientConfig { server, timeout_secs })
        }
    }

    /// The server to register with, if one was named.
    pub fn server_name(&self) -> (r: Option<String>)
        ensures
            text_of(r) == self.server(),
    {
        match &self.server {
            Some(s) => Some(s.clone()),
            None => None,
        }
    }

    /// The limit on each request, in seconds; it is positive.
    pub fn timeout_secs(&self) -> (r: u64)
        ensures
            r == self.timeout(),
            r > 0,
    {
        proof {
            use_type_invariant(self);
        }
        self.timeout_secs
    }
}

} // verus!
