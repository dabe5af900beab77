use vstd::prelude::*;

verus! {

/// Name of the field that holds the identifier assigned at registration.
pub const UNIQUE_ID: &'static str = "unique_id";

/// Name of the field that holds the full identifier that was touched.
pub const FULL_ID: &'static str = "full_id";

/// Name of the field that holds the DNS query type.
pub const Q_TYPE: &'static str = "q_type";

/// Name of the field that holds the request as it was received.
pub const RAW_REQUEST: &'static str = "raw_request";

/// Name of the field that holds the response as it was sent.
pub const RAW_RESPONSE: &'static str = "raw_response";

/// Name of the field that holds the address of the remote peer.
pub const REMOTE_ADDRESS: &'static str = "remote_address";

/// Name of the field that holds the sender of a mail.
pub const SMTP_FROM: &'static str = "smtp_from";

/// Name of the field that holds the time of the interaction.
pub const TIMESTAMP: &'static str = "timestamp";

/// The kind of protocol that touched the collaborator endpoint.
#[derive(Clone, Copy, Debug, PartialEq, Eq, Structural)]
pub enum Protocol {
    Http,
    Dns,
    Ldap,
    Smb,
    Ftp,
    Smtp,
}

impl Protocol {
    /// The names of the fields that an interaction of this kind carries.
    pub open spec fn field_names(self) -> Set<Seq<char>> {
        match self {
            Protocol::Http | Protocol::Ldap => set![
                UNIQUE_ID@,
                FULL_ID@,
                RAW_REQUEST@,
                RAW_RESPONSE@,
                REMOTE_ADDRESS@,
                TIMESTAMP@,
            ],
            Protocol::Dns => set![
                UNIQUE_ID@,
                FULL_ID@,
                Q_TYPE@,
                RAW_REQUEST@,
                RAW_RESPONSE@,
                REMOTE_ADDRESS@,
                TIMESTAMP@,
            ],
            Protocol::Smb => set![RAW_REQUEST@, TIMESTAMP@],
            Protocol::Ftp => set![RAW_REQUEST@, REMOTE_ADDRESS@, TIMESTAMP@],
            Protocol::Smtp => set![
                UNIQUE_ID@,
                FULL_ID@,
                SMTP_FROM@,
                RAW_REQUEST@,
                REMOTE_ADDRESS@,
                TIMESTAMP@,
            ],
        }
    }
}

/// The eight field names are pairwise different.
pub proof fn lemma_field_names_differ()
    ensures
        UNIQUE_ID@ != FULL_ID@,
        UNIQUE_ID@ != Q_TYPE@,
        UNIQUE_ID@ != RAW_REQUEST@,
        UNIQUE_ID@ != RAW_RESPONSE@,
        UNIQUE_ID@ != REMOTE_ADDRESS@,
        UNIQUE_ID@ != SMTP_FROM@,
        UNIQUE_ID@ != TIMESTAMP@,
        FULL_ID@ != Q_TYPE@,
        FULL_ID@ != RAW_REQUEST@,
        FULL_ID@ != RAW_RESPONSE@,
        FULL_ID@ != REMOTE_ADDRESS@,
        FULL_ID@ != SMTP_FROM@,
        FULL_ID@ != TIMESTAMP@,
        Q_TYPE@ != RAW_REQUEST@,
        Q_TYPE@ != RAW_RESPONSE@,
        Q_TYPE@ != REMOTE_ADDRESS@,
        Q_TYPE@ != SMTP_FROM@,
        Q_TYPE@ != TIMESTAMP@,
        RAW_REQUEST@ != RAW_RESPONSE@,
        RAW_REQUEST@ != REMOTE_ADDRESS@,
        RAW_REQUEST@ != SMTP_FROM@,
        RAW_REQUEST@ != TIMESTAMP@,
        RAW_RESPONSE@ != REMOTE_ADDRESS@,
        RAW_RESPONSE@ != SMTP_FROM@,
        RAW_RESPONSE@ != TIMESTAMP@,
        REMOTE_ADDRESS@ != SMTP_FROM@,
        REMOTE_ADDRESS@ != TIMESTAMP@,
        SMTP_FROM@ != TIMESTAMP@,
{
    reveal_strlit("unique_id");
    reveal_strlit("full_id");
    reveal_strlit("q_type");
    reveal_strlit("raw_request");
    reveal_strlit("raw_response");
    reveal_strlit("remote_address");
    reveal_strlit("smtp_from");
    reveal_strlit("timestamp");
    assert(UNIQUE_ID@.len() == 9);
    assert(FULL_ID@.len() == 7);
    assert(Q_TYPE@.len() == 6);
    assert(RAW_REQUEST@.len() == 11);
    assert(RAW_RESPONSE@.len() == 12);
    assert(REMOTE_ADDRESS@.len() == 14);
    assert(SMTP_FROM@.len() == 9);
    assert(TIMESTAMP@.len() == 9);
    assert(UNIQUE_ID@[0] == 'u');
    assert(SMTP_FROM@[0] == 's');
    assert(TIMESTAMP@[0] == 't');
}

} // verus!
