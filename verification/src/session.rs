use vstd::prelude::*;
use crate::config::{text_of, ClientConfig};
use crate::entry::{decode, decode_spec, entry_views, LogEntry, ParsedLogEntry};
use crate::error::ClientError;

verus! {

/// How far the registration of a client has come.
#[derive(Clone, Copy, Debug, PartialEq, Eq, Structural)]
pub enum RegistrationPhase {
    /// Nothing was sent yet.
    Unregistered,
    /// The handshake request is out and the server has not answered.
    AwaitingServerAck,
    /// The server acknowledged; the session was handed out.
    Registered,
    /// The handshake failed; this attempt is over.
    Failed,
}

/// What the handshake is to be made with. Only a registration makes one, so
/// the limit is positive and structured logs are asked for.
pub struct HandshakeRequest {
    server: Option<String>,
    timeout_secs: u64,
    parse_logs: bool,
}

impl HandshakeRequest {
    #[verifier::type_invariant]
    spec fn sound(&self) -> bool {
        self.timeout_secs > 0 && self.parse_logs
    }

    /// The server to register with, if one was named.
    pub closed spec fn server(&self) -> Option<Seq<char>> {
        text_of(self.server)
    }

    /// The limit on the handshake and on every later request, in seconds.
    pub closed spec fn timeout(&self) -> u64 {
        self.timeout_secs
    }

    /// The server to register with; without one, the default public server
    /// is meant.
    pub fn server_name(&self) -> (r: Option<String>)
        ensures
            text_of(r) == self.server(),
    {
        match &self.server {
            Some(s) => Some(s.clone()),
            None => None,
        }
    }

    /// The limit on the handshake and on every later request, in seconds.
    pub fn timeout_secs(&self) -> (r: u64)
        ensures
            r == self.timeout(),
            r > 0,
    {
        proof {
            use_type_invariant(self);
        }
        self.timeout_secs
    }

    /// Whether the client asks the server for structured logs. It always
    /// does.
    pub fn parse_logs(&self) -> (r: bool)
        ensures
            r,
    {
        proof {
            use_type_invariant(self);
        }
        self.parse_logs
    }
}

/// How the handshake ended.
pub enum HandshakeReply {
    /// The server acknowledged and assigned this address.
    Acked { address: String },
    /// The server could not be reached, did not answer in time, or its
    /// answer was rejected.
    Failed,
}

/// The one-shot registration of a client.
pub struct Registration {
    config: ClientConfig,
    phase: RegistrationPhase,
}

impl Registration {
    /// How far the registration has come.
    pub closed spec fn phase(&self) -> RegistrationPhase {
        self.phase
    }

    /// The configuration that the registration was made with.
    pub closed spec fn config(&self) -> ClientConfig {
        self.config
    }

    /// A registration that has not started.
    pub fn new(config: ClientConfig) -> (r: Registration)
        ensures
            r.phase() == RegistrationPhase::Unregistered,
            r.config() == config,
    {
        Registration { config, phase: RegistrationPhase::Unregistered }
    }

    /// How far the registration has come.
    pub fn current_phase(&self) -> (r: RegistrationPhase)
        ensures
            r == self.phase(),
    {
        self.phase
    }

    /// Starts the handshake. From `Unregistered` this gives the request to
    /// send, with structured logs asked for, and the registration then
    /// awaits the server. In every other phase nothing is to be sent: the
    /// call fails and changes nothing.
    pub fn begin(&mut self) -> (r: Result<HandshakeRequest, ClientError>)
        ensures
            final(self).config() == old(self).config(),
            match r {
                Ok(request) => {
                    &&& old(self).phase() == RegistrationPhase::Unregistered
                    &&& final(self).phase() == RegistrationPhase::AwaitingServerAck
                    &&& request.server() == old(self).config().server()
                    &&& request.timeout() == old(self).config().timeout()
                },
                Err(e) => {
                    &&& old(self).phase() != RegistrationPhase::Unregistered
                    &&& final(self).phase() == old(self).phase()
                    &&& e == ClientError::RegistrationFailed
                },
            },
    {
        match self.phase {
            RegistrationPhase::Unregistered => {
                let request = HandshakeRequest {
                    server: self.config.server_name(),
                    timeout_secs: self.config.timeout_secs(),
                    parse_logs: true,
                };
                self.phase = RegistrationPhase::AwaitingServerAck;
                Ok(request)
            },
            _ => Err(ClientError::RegistrationFailed),
        }
    }

    /// Takes the server's answer. While the server is awaited, an
    /// acknowledgement gives the session, idle and with the assigned
    /// address, and a failure ends the attempt. In every other phase no
    /// answer is expected: the call fails and changes nothing.
    pub fn complete(&mut self, reply: HandshakeReply) -> (r: Result<
        RegisteredSession,
        ClientError,
    >)
        ensures
            final(self).config() == old(self).config(),
            match r {
                Ok(session) => {
                    &&& old(self).phase() == RegistrationPhase::AwaitingServerAck
                    &&& final(self).phase() == RegistrationPhase::Registered
                    &&& reply matches HandshakeReply::Acked { address }
                    &&& session.address() == address@
                    &&& session.timeout() == old(self).config().timeout()
                    &&& session.phase() == SessionPhase::Idle
                },
                Err(e) => {
                    &&& e == ClientError::RegistrationFailed
                    &&& if old(self).phase() == RegistrationPhase::AwaitingServerAck {
                        reply is Failed && final(self).phase() == RegistrationPhase::Failed
                    } else {
                        final(self).phase() == old(self).phase()
                    }
                },
            },
    {
        match self.phase {
            RegistrationPhase::AwaitingServerAck => match reply {
                HandshakeReply::Acked { address } => {
                    let session = RegisteredSession {
                        address,
                        timeout_secs: self.config.timeout_secs(),
                        phase: SessionPhase::Idle,
                    };
                    self.phase = RegistrationPhase::Registered;
                    Ok(session)
                },
                HandshakeReply::Failed => {
                    self.phase = RegistrationPhase::Failed;
                    Err(ClientError::RegistrationFailed)
                },
            },
            _ => Err(ClientError::RegistrationFailed),
        }
    }
}

/// What a registered session is doing.
#[derive(Clone, Copy, Debug, PartialEq, Eq, Structural)]
pub enum SessionPhase {
    /// Registered, with no poll under way.
    Idle,
    /// One poll is under way.
    Polling,
    /// The session was given up.
    Terminated,
}

/// What a poll is to be made with.
pub struct PollRequest {
    /// The limit on the round trip, in seconds.
    pub timeout_secs: u64,
}

/// How a poll round trip ended.
pub enum PollReply {
    /// The server had nothing new.
    NoNewEvents,
    /// The server delivered these entries, in this order.
    Entries(Vec<LogEntry>),
    /// The round trip failed: no answer in time, a transport error, or the
    /// server does not know the session.
    Failed,
}

/// A session that the server acknowledged. Its address is fixed for its
/// whole life.
pub struct RegisteredSession {
    address: String,
    timeout_secs: u64,
    phase: SessionPhase,
}

impl RegisteredSession {
    /// The address that the server assigned.
    pub closed spec fn address(&self) -> Seq<char> {
        self.address@
    }

    /// The limit on each poll, in seconds.
    pub closed spec fn timeout(&self) -> u64 {
        self.timeout_secs
    }

    /// What the session is doing.
    pub closed spec fn phase(&self) -> SessionPhase {
        self.phase
    }

    /// The address that the server assigned: the same at every call.
    pub fn get_address(&self) -> (r: String)
        ensures
            r@ == self.address(),
    {
        self.address.clone()
    }

    /// What the session is doing.
    pub fn current_phase(&self) -> (r: SessionPhase)
        ensures
            r == self.phase(),
    {
        self.phase
    }

    /// Starts a poll. An idle session gives the request to send and is then
    /// polling. While a poll is under way, or after the session was given
    /// up, no poll may start: the call fails and changes nothing.
    pub fn begin_poll(&mut self) -> (r: Result<PollRequest, ClientError>)
        ensures
            final(self).address() == old(self).address(),
            final(self).timeout() == old(self).timeout(),
            match r {
                Ok(request) => {
                    &&& old(self).phase() == SessionPhase::Idle
                    &&& final(self).phase() == SessionPhase::Polling
                    &&& request.timeout_secs == old(self).timeout()
                },
                Err(e) => {
                    &&& old(self).phase() != SessionPhase::Idle
                    &&& final(self).phase() == old(self).phase()
                    &&& e == ClientError::PollFailed
                },
            },
    {
        match self.phase {
            SessionPhase::Idle => {
                self.phase = SessionPhase::Polling;
                Ok(PollRequest { timeout_secs: self.timeout_secs })
            },
            _ => Err(ClientError::PollFailed),
        }
    }

    /// Takes the outcome of the poll under way, after which the session is
    /// idle again. Nothing new gives the empty list; delivered entries give
    /// their interactions, in the order of delivery; a failed round trip is
    /// an error. Where no poll is under way the call fails and changes
    /// nothing.
    pub fn finish_poll(&mut self, reply: PollReply) -> (r: Result<Vec<ParsedLogEntry>, ClientError>)
        ensures
            final(self).address() == old(self).address(),
            final(self).timeout() == old(self).timeout(),
            final(self).phase() == poll_finished(old(self).phase()),
            match r {
                Ok(entries) => {
                    &&& old(self).phase() == SessionPhase::Polling
                    &&& match reply {
                        PollReply::NoNewEvents => entries@.len() == 0,
                        PollReply::Entries(raw) => entry_views(entries@) == decode_spec(raw@),
                        PollReply::Failed => false,
                    }
                },
                Err(e) => {
                    &&& e == ClientError::PollFailed
                    &&& old(self).phase() == SessionPhase::Polling ==> reply is Failed
                },
            },
    {
        match self.phase {
            SessionPhase::Polling => {
                self.phase = SessionPhase::Idle;
                match reply {
                    PollReply::NoNewEvents => Ok(Vec::new()),
                    PollReply::Entries(raw) => Ok(decode(&raw)),
                    PollReply::Failed => Err(ClientError::PollFailed),
                }
            },
            _ => Err(ClientError::PollFailed),
        }
    }

    /// Gives the session up. The result says whether the server is to be
    /// told, which is so the first time only.
    pub fn terminate(&mut self) -> (deregister: bool)
        ensures
            final(self).address() == old(self).address(),
            final(self).timeout() == old(self).timeout(),
            final(self).phase() == SessionPhase::Terminated,
            deregister == (old(self).phase() != SessionPhase::Terminated),
    {
        let first = match self.phase {
            SessionPhase::Terminated => false,
            _ => true,
        };
        self.phase = SessionPhase::Terminated;
        first
    }
}

/// The phase after the outcome of a poll was taken: a polling session is
/// idle again, and every other phase stays.
pub open spec fn poll_finished(phase: SessionPhase) -> SessionPhase {
    match phase {
        SessionPhase::Polling => SessionPhase::Idle,
        other => other,
    }
}

} // verus!
