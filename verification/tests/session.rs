use oast_client::config::ClientOpts;
use oast_client::entry::{LogEntry, ParsedLogEntry, TaggedLog};
use oast_client::error::ClientError;
use oast_client::fields::Protocol;
use oast_client::normalize::{flatten, normalize};
use oast_client::session::{
    HandshakeReply, PollReply, RegisteredSession, Registration, RegistrationPhase, SessionPhase,
};

fn registration_for(server: Option<&str>, timeout: Option<u64>) -> Registration {
    let opts = ClientOpts::overlay(server.map(|s| s.to_string()), timeout);
    match opts.resolve() {
        Ok(config) => Registration::new(config),
        Err(_) => panic!("the options must resolve"),
    }
}

fn registered(server: Option<&str>, timeout: Option<u64>, address: &str) -> RegisteredSession {
    let mut registration = registration_for(server, timeout);
    assert!(registration.begin().is_ok());
    match registration.complete(HandshakeReply::Acked { address: address.to_string() }) {
        Ok(session) => session,
        Err(_) => panic!("an acknowledged handshake must give a session"),
    }
}

fn dns_entry() -> LogEntry {
    LogEntry::ParsedLog(TaggedLog {
        protocol: Protocol::Dns,
        unique_id: Some("abc".to_string()),
        full_id: Some("abc".to_string()),
        q_type: Some("A".to_string()),
        raw_request: Some("...".to_string()),
        raw_response: Some("...".to_string()),
        remote_address: Some("1.2.3.4".to_string()),
        smtp_from: None,
        timestamp: Some("1700000000".to_string()),
    })
}

#[test]
fn registration_starts_unregistered() {
    let registration = registration_for(None, None);
    assert_eq!(registration.current_phase(), RegistrationPhase::Unregistered);
}

#[test]
fn begin_gives_the_handshake_request() {
    let mut registration = registration_for(Some("oast.example"), Some(10));
    let request = match registration.begin() {
        Ok(request) => request,
        Err(_) => panic!("a fresh registration must begin"),
    };
    assert_eq!(request.server_name(), Some("oast.example".to_string()));
    assert_eq!(request.timeout_secs(), 10);
    assert!(request.parse_logs());
    assert_eq!(registration.current_phase(), RegistrationPhase::AwaitingServerAck);
}

#[test]
fn begin_without_a_server_uses_the_defaults() {
    let mut registration = registration_for(None, None);
    let request = match registration.begin() {
        Ok(request) => request,
        Err(_) => panic!("a fresh registration must begin"),
    };
    assert_eq!(request.server_name(), None);
    assert_eq!(request.timeout_secs(), 30);
    assert!(request.parse_logs());
}

#[test]
fn begin_is_one_shot() {
    let mut registration = registration_for(None, None);
    assert!(registration.begin().is_ok());
    assert!(matches!(registration.begin(), Err(ClientError::RegistrationFailed)));
    assert_eq!(registration.current_phase(), RegistrationPhase::AwaitingServerAck);
}

#[test]
fn complete_before_begin_fails_and_changes_nothing() {
    let mut registration = registration_for(None, None);
    let outcome = registration.complete(HandshakeReply::Acked { address: "x.y".to_string() });
    assert!(matches!(outcome, Err(ClientError::RegistrationFailed)));
    assert_eq!(registration.current_phase(), RegistrationPhase::Unregistered);
    assert!(registration.begin().is_ok());
}

#[test]
fn acknowledged_handshake_gives_an_idle_session() {
    let mut registration = registration_for(Some("oast.example"), Some(10));
    assert!(registration.begin().is_ok());
    let session = match registration
        .complete(HandshakeReply::Acked { address: "c0ffee.oast.example".to_string() })
    {
        Ok(session) => session,
        Err(_) => panic!("an acknowledged handshake must give a session"),
    };
    assert_eq!(registration.current_phase(), RegistrationPhase::Registered);
    assert_eq!(session.get_address(), "c0ffee.oast.example");
    assert_eq!(session.current_phase(), SessionPhase::Idle);
}

#[test]
fn failed_handshake_is_terminal() {
    let mut registration = registration_for(Some("unreachable.invalid"), Some(3));
    assert!(registration.begin().is_ok());
    assert!(matches!(
        registration.complete(HandshakeReply::Failed),
        Err(ClientError::RegistrationFailed)
    ));
    assert_eq!(registration.current_phase(), RegistrationPhase::Failed);
    assert!(matches!(registration.begin(), Err(ClientError::RegistrationFailed)));
    assert!(matches!(
        registration.complete(HandshakeReply::Acked { address: "late.example".to_string() }),
        Err(ClientError::RegistrationFailed)
    ));
    assert_eq!(registration.current_phase(), RegistrationPhase::Failed);
}

#[test]
fn registration_hands_out_one_session_only() {
    let mut registration = registration_for(None, None);
    assert!(registration.begin().is_ok());
    assert!(registration.complete(HandshakeReply::Acked { address: "a.b".to_string() }).is_ok());
    assert!(matches!(
        registration.complete(HandshakeReply::Acked { address: "a.b".to_string() }),
        Err(ClientError::RegistrationFailed)
    ));
    assert!(matches!(registration.begin(), Err(ClientError::RegistrationFailed)));
    assert_eq!(registration.current_phase(), RegistrationPhase::Registered);
}

#[test]
fn address_is_the_same_at_every_call() {
    let mut session = registered(None, None, "abc123.oast.pro");
    let first = session.get_address();
    let second = session.get_address();
    assert_eq!(first, "abc123.oast.pro");
    assert_eq!(first, second);
    assert!(session.begin_poll().is_ok());
    assert_eq!(session.get_address(), first);
    assert!(session.finish_poll(PollReply::Failed).is_err());
    assert_eq!(session.get_address(), first);
    assert!(session.terminate());
    assert_eq!(session.get_address(), first);
}

#[test]
fn poll_without_new_events_is_empty_and_no_error() {
    let mut session = registered(None, None, "abc.oast.pro");
    assert!(session.begin_poll().is_ok());
    match session.finish_poll(PollReply::NoNewEvents) {
        Ok(entries) => assert!(entries.is_empty()),
        Err(_) => panic!("no new events is not an error"),
    }
    assert_eq!(session.current_phase(), SessionPhase::Idle);
}

#[test]
fn poll_with_an_empty_delivery_is_empty() {
    let mut session = registered(None, None, "abc.oast.pro");
    assert!(session.begin_poll().is_ok());
    match session.finish_poll(PollReply::Entries(Vec::new())) {
        Ok(entries) => assert!(entries.is_empty()),
        Err(_) => panic!("an empty delivery is not an error"),
    }
}

#[test]
fn poll_request_carries_the_configured_timeout() {
    let mut session = registered(Some("oast.example"), Some(1), "abc.oast.example");
    match session.begin_poll() {
        Ok(request) => assert_eq!(request.timeout_secs, 1),
        Err(_) => panic!("an idle session must poll"),
    }
    assert_eq!(session.current_phase(), SessionPhase::Polling);
}

#[test]
fn poll_that_never_answers_fails_with_poll_failed() {
    let mut session = registered(Some("oast.example"), Some(1), "abc.oast.example");
    assert!(session.begin_poll().is_ok());
    assert!(matches!(session.finish_poll(PollReply::Failed), Err(ClientError::PollFailed)));
    assert_eq!(session.current_phase(), SessionPhase::Idle);
    assert!(session.begin_poll().is_ok());
}

#[test]
fn only_one_poll_at_a_time() {
    let mut session = registered(None, None, "abc.oast.pro");
    assert!(session.begin_poll().is_ok());
    assert!(matches!(session.begin_poll(), Err(ClientError::PollFailed)));
    assert_eq!(session.current_phase(), SessionPhase::Polling);
    assert!(session.finish_poll(PollReply::NoNewEvents).is_ok());
    assert!(session.begin_poll().is_ok());
}

#[test]
fn finish_without_a_poll_fails_and_changes_nothing() {
    let mut session = registered(None, None, "abc.oast.pro");
    assert!(matches!(
        session.finish_poll(PollReply::Entries(vec![dns_entry()])),
        Err(ClientError::PollFailed)
    ));
    assert_eq!(session.current_phase(), SessionPhase::Idle);
}

#[test]
fn poll_delivers_interactions_in_order() {
    let mut session = registered(None, None, "abc.oast.pro");
    assert!(session.begin_poll().is_ok());
    let batch = vec![
        LogEntry::RawLog("heartbeat".to_string()),
        dns_entry(),
        LogEntry::ParsedLog(TaggedLog {
            protocol: Protocol::Smb,
            unique_id: None,
            full_id: None,
            q_type: None,
            raw_request: Some("smb".to_string()),
            raw_response: None,
            remote_address: None,
            smtp_from: None,
            timestamp: Some("2".to_string()),
        }),
    ];
    let entries = match session.finish_poll(PollReply::Entries(batch)) {
        Ok(entries) => entries,
        Err(_) => panic!("a delivery is not an error"),
    };
    assert_eq!(entries.len(), 2);
    assert_eq!(entries[0].protocol(), Protocol::Dns);
    assert_eq!(entries[1].protocol(), Protocol::Smb);
    assert_eq!(session.current_phase(), SessionPhase::Idle);
}

#[test]
fn terminated_session_does_not_poll() {
    let mut session = registered(None, None, "abc.oast.pro");
    assert!(session.terminate());
    assert_eq!(session.current_phase(), SessionPhase::Terminated);
    assert!(matches!(session.begin_poll(), Err(ClientError::PollFailed)));
    assert!(matches!(session.finish_poll(PollReply::NoNewEvents), Err(ClientError::PollFailed)));
    assert_eq!(session.current_phase(), SessionPhase::Terminated);
}

#[test]
fn terminate_asks_for_deregistration_once() {
    let mut session = registered(None, None, "abc.oast.pro");
    assert!(session.begin_poll().is_ok());
    assert!(session.terminate());
    assert!(!session.terminate());
    assert_eq!(session.current_phase(), SessionPhase::Terminated);
}

#[test]
fn round_trip_with_one_dns_interaction() {
    let mut registration = registration_for(Some("oast.example"), Some(10));
    let request = match registration.begin() {
        Ok(request) => request,
        Err(_) => panic!("a fresh registration must begin"),
    };
    let server = match request.server_name() {
        Some(server) => server,
        None => panic!("the server was named"),
    };
    assert_eq!(server, "oast.example");
    assert_eq!(request.timeout_secs(), 10);
    let assigned = format!("{}.{}", "c8f3kq0m2l9x7v5b1n4t6w0a2z", server);
    let mut session = match registration.complete(HandshakeReply::Acked { address: assigned }) {
        Ok(session) => session,
        Err(_) => panic!("an acknowledged handshake must give a session"),
    };
    let address = session.get_address();
    assert!(address.ends_with(".oast.example"));
    assert!(address.len() > ".oast.example".len());
    assert!(address.chars().all(|c| c.is_ascii_alphanumeric() || c == '.' || c == '-'));

    assert!(session.begin_poll().is_ok());
    let entries = match session.finish_poll(PollReply::Entries(vec![dns_entry()])) {
        Ok(entries) => entries,
        Err(_) => panic!("a delivery is not an error"),
    };
    assert_eq!(entries.len(), 1);
    match &entries[0] {
        ParsedLogEntry::Dns { q_type, .. } => assert_eq!(q_type, "A"),
        _ => panic!("expected the Dns variant"),
    }
    let merged = flatten(&entries);
    assert_eq!(merged.get("unique_id"), Some("abc".to_string()));
    assert_eq!(merged.get("q_type"), Some("A".to_string()));
    assert_eq!(merged.get("raw_request"), Some("...".to_string()));
    assert_eq!(merged.get("raw_response"), Some("...".to_string()));
    assert_eq!(merged.get("remote_address"), Some("1.2.3.4".to_string()));
    assert_eq!(merged.get("timestamp"), Some("1700000000".to_string()));
    let each = normalize(&entries);
    assert_eq!(each.len(), 1);
    assert_eq!(each[0].get("q_type"), Some("A".to_string()));
    assert_eq!(each[0].get("timestamp"), Some("1700000000".to_string()));
}

#[test]
fn sessions_keep_the_addresses_they_were_given() {
    let first = registered(Some("oast.example"), None, "aaa.oast.example");
    let second = registered(Some("oast.example"), None, "bbb.oast.example");
    assert_eq!(first.get_address(), "aaa.oast.example");
    assert_eq!(second.get_address(), "bbb.oast.example");
    assert_ne!(first.get_address(), second.get_address());
}
