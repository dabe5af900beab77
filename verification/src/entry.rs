use vstd::prelude::*;
use crate::error::ClientError;
use crate::fields::{
    Protocol, FULL_ID, Q_TYPE, RAW_REQUEST, RAW_RESPONSE, REMOTE_ADDRESS, SMTP_FROM, TIMESTAMP,
    UNIQUE_ID, lemma_field_names_differ,
};

verus! {

/// A structured entry as the server delivered it: the protocol it is tagged
/// with, and every field that came with it.
pub struct TaggedLog {
    pub protocol: Protocol,
    pub unique_id: Option<String>,
    pub full_id: Option<String>,
    pub q_type: Option<String>,
    pub raw_request: Option<String>,
    pub raw_response: Option<String>,
    pub remote_address: Option<String>,
    pub smtp_from: Option<String>,
    pub timestamp: Option<String>,
}

/// One unit of what a poll returns.
pub enum LogEntry {
    /// A structured interaction.
    ParsedLog(TaggedLog),
    /// Anything else, such as a keep-alive; it carries no interaction.
    RawLog(String),
}

/// An interaction of a known protocol, with exactly the fields of that
/// protocol.
pub enum ParsedLogEntry {
    Http {
        unique_id: String,
        full_id: String,
        raw_request: String,
        raw_response: String,
        remote_address: String,
        timestamp: String,
    },
    Dns {
        unique_id: String,
        full_id: String,
        q_type: String,
        raw_request: String,
        raw_response: String,
        remote_address: String,
        timestamp: String,
    },
    Ldap {
        unique_id: String,
        full_id: String,
        raw_request: String,
        raw_response: String,
        remote_address: String,
        timestamp: String,
    },
    Smb { raw_request: String, timestamp: String },
    Ftp { remote_address: String, raw_request: String, timestamp: String },
    Smtp {
        unique_id: String,
        full_id: String,
        raw_request: String,
        smtp_from: String,
        remote_address: String,
        timestamp: String,
    },
}

/// What an interaction is, mathematically: its protocol and its fields by
/// name.
pub struct EntryView {
    pub protocol: Protocol,
    pub fields: Map<Seq<char>, Seq<char>>,
}

/// `m` with `key` set to the characters of `value`, where there is a value.
pub open spec fn with_field(
    m: Map<Seq<char>, Seq<char>>,
    key: Seq<char>,
    value: Option<String>,
) -> Map<Seq<char>, Seq<char>> {
    match value {
        Some(v) => m.insert(key, v@),
        None => m,
    }
}

impl TaggedLog {
    /// The fields that came with the entry, by name.
    pub open spec fn fields(&self) -> Map<Seq<char>, Seq<char>> {
        let m = Map::<Seq<char>, Seq<char>>::empty();
        let m = with_field(m, UNIQUE_ID@, self.unique_id);
        let m = with_field(m, FULL_ID@, self.full_id);
        let m = with_field(m, Q_TYPE@, self.q_type);
        let m = with_field(m, RAW_REQUEST@, self.raw_request);
        let m = with_field(m, RAW_RESPONSE@, self.raw_response);
        let m = with_field(m, REMOTE_ADDRESS@, self.remote_address);
        let m = with_field(m, SMTP_FROM@, self.smtp_from);
        with_field(m, TIMESTAMP@, self.timestamp)
    }

    /// Every field that the entry's protocol requires came with it.
    pub open spec fn complete(&self) -> bool {
        self.protocol.field_names().subset_of(self.fields().dom())
    }

    /// The interaction that the entry holds: the fields of its protocol and
    /// no others.
    pub open spec fn parsed(&self) -> EntryView {
        EntryView {
            protocol: self.protocol,
            fields: self.fields().restrict(self.protocol.field_names()),
        }
    }
}

impl LogEntry {
    /// The interaction that the entry holds, if it holds one: it is a
    /// structured entry with all that its protocol requires.
    pub open spec fn decoded(&self) -> Option<EntryView> {
        match self {
            LogEntry::ParsedLog(t) => if t.complete() {
                Some(t.parsed())
            } else {
                None
            },
            LogEntry::RawLog(_) => None,
        }
    }
}

/// The interactions of a batch: those of the entries that hold one, in the
/// order of the batch.
pub open spec fn decode_spec(raw: Seq<LogEntry>) -> Seq<EntryView>
    decreases raw.len(),
{
    if raw.len() == 0 {
        Seq::empty()
    } else {
        let rest = decode_spec(raw.drop_last());
        match raw.last().decoded() {
            Some(entry) => rest.push(entry),
            None => rest,
        }
    }
}

/// The interactions of a list, each by its view.
pub open spec fn entry_views(entries: Seq<ParsedLogEntry>) -> Seq<EntryView> {
    Seq::new(entries.len(), |i: int| entries[i]@)
}

impl View for ParsedLogEntry {
    type V = EntryView;

    open spec fn view(&self) -> EntryView {
        match self {
            ParsedLogEntry::Http {
                unique_id,
                full_id,
                raw_request,
                raw_response,
                remote_address,
                timestamp,
            } => EntryView {
                protocol: Protocol::Http,
                fields: map![
                    UNIQUE_ID@ => unique_id@,
                    FULL_ID@ => full_id@,
                    RAW_REQUEST@ => raw_request@,
                    RAW_RESPONSE@ => raw_response@,
                    REMOTE_ADDRESS@ => remote_address@,
                    TIMESTAMP@ => timestamp@,
                ],
            },
            ParsedLogEntry::Dns {
                unique_id,
                full_id,
                q_type,
                raw_request,
                raw_response,
                remote_address,
                timestamp,
            } => EntryView {
                protocol: Protocol::Dns,
                fields: map![
                    Q_TYPE@ => q_type@,
                    UNIQUE_ID@ => unique_id@,
                    FULL_ID@ => full_id@,
                    RAW_REQUEST@ => raw_request@,
                    RAW_RESPONSE@ => raw_response@,
                    REMOTE_ADDRESS@ => remote_address@,
                    TIMESTAMP@ => timestamp@,
                ],
            },
            ParsedLogEntry::Ldap {
                unique_id,
                full_id,
                raw_request,
                raw_response,
                remote_address,
                timestamp,
            } => EntryView {
                protocol: Protocol::Ldap,
                fields: map![
                    UNIQUE_ID@ => unique_id@,
                    FULL_ID@ => full_id@,
                    RAW_REQUEST@ => raw_request@,
                    RAW_RESPONSE@ => raw_response@,
                    REMOTE_ADDRESS@ => remote_address@,
                    TIMESTAMP@ => timestamp@,
                ],
            },
            ParsedLogEntry::Smb { raw_request, timestamp } => EntryView {
                protocol: Protocol::Smb,
                fields: map![
                    RAW_REQUEST@ => raw_request@,
                    TIMESTAMP@ => timestamp@,
                ],
            },
            ParsedLogEntry::Ftp { remote_address, raw_request, timestamp } => EntryView {
                protocol: Protocol::Ftp,
                fields: map![
                    RAW_REQUEST@ => raw_request@,
                    REMOTE_ADDRESS@ => remote_address@,
                    TIMESTAMP@ => timestamp@,
                ],
            },
            ParsedLogEntry::Smtp {
                unique_id,
                full_id,
                raw_request,
                smtp_from,
                remote_address,
                timestamp,
            } => EntryView {
                protocol: Protocol::Smtp,
                fields: map![
                    UNIQUE_ID@ => unique_id@,
                    FULL_ID@ => full_id@,
                    SMTP_FROM@ => smtp_from@,
                    RAW_REQUEST@ => raw_request@,
                    REMOTE_ADDRESS@ => remote_address@,
                    TIMESTAMP@ => timestamp@,
                ],
            },
        }
    }
}

impl ParsedLogEntry {
    /// The protocol of the interaction.
    pub fn protocol(&self) -> (r: Protocol)
        ensures
            r == self@.protocol,
    {
        match self {
            ParsedLogEntry::Http { .. } => Protocol::Http,
            ParsedLogEntry::Dns { .. } => Protocol::Dns,
            ParsedLogEntry::Ldap { .. } => Protocol::Ldap,
            ParsedLogEntry::Smb { .. } => Protocol::Smb,
            ParsedLogEntry::Ftp { .. } => Protocol::Ftp,
            ParsedLogEntry::Smtp { .. } => Protocol::Smtp,
        }
    }
}

/// An interaction carries exactly the fields that its protocol defines:
/// none is missing and none is added.
pub proof fn lemma_entry_field_set(entry: ParsedLogEntry)
    ensures
        entry@.fields.dom() == entry@.protocol.field_names(),
{
    assert(entry@.fields.dom() =~= entry@.protocol.field_names());
}

/// Decoding a complete tagged entry of any protocol gives an interaction of
/// that protocol whose fields are those that the protocol defines, each with
/// the value that the server supplied.
pub proof fn lemma_decoded_field_set(tagged: TaggedLog)
    requires
        tagged.complete(),
    ensures
        tagged.parsed().protocol == tagged.protocol,
        tagged.parsed().fields.dom() == tagged.protocol.field_names(),
        forall|name: Seq<char>| #[trigger]
            tagged.protocol.field_names().contains(name) ==> tagged.parsed().fields[name]
                == tagged.fields()[name],
{
    assert(tagged.parsed().fields.dom() =~= tagged.protocol.field_names());
}

/// The characters of a field that is there.
fn required(field: &Option<String>) -> (r: Option<String>)
    ensures
        match *field {
            Some(v) => r matches Some(s) && s@ == v@,
            None => r is None,
        },
{
    match field {
        Some(v) => Some(v.clone()),
        None => None,
    }
}

/// Decodes one entry of a poll.
///
/// An entry that is no structured interaction is passed over: the result is
/// `Ok(None)`. A structured entry gives the interaction of its protocol,
/// with the fields of that protocol and no others. A structured entry that
/// lacks a field of its protocol is an error of that entry alone.
pub fn decode_entry(raw: &LogEntry) -> (r: Result<Option<ParsedLogEntry>, ClientError>)
    ensures
        match raw.decoded() {
            Some(view) => r matches Ok(Some(entry)) && entry@ == view,
            None => match *raw {
                LogEntry::RawLog(_) => r matches Ok(None),
                LogEntry::ParsedLog(_) => r matches Err(e) && e == ClientError::DecodeError,
            },
        },
{
    proof {
        lemma_field_names_differ();
    }
    let tagged = match raw {
        LogEntry::RawLog(_) => {
            return Ok(None);
        },
        LogEntry::ParsedLog(tagged) => tagged,
    };
    let unique_id = required(&tagged.unique_id);
    let full_id = required(&tagged.full_id);
    let q_type = required(&tagged.q_type);
    let raw_request = required(&tagged.raw_request);
    let raw_response = required(&tagged.raw_response);
    let remote_address = required(&tagged.remote_address);
    let smtp_from = required(&tagged.smtp_from);
    let timestamp = required(&tagged.timestamp);
    let ghost names = tagged.protocol.field_names();
    let ghost given = tagged.fields();
    let entry = match tagged.protocol {
        Protocol::Http => match (
            unique_id,
            full_id,
            raw_request,
            raw_response,
            remote_address,
            timestamp,
        ) {
            (
                Some(unique_id),
                Some(full_id),
                Some(raw_request),
                Some(raw_response),
                Some(remote_address),
                Some(timestamp),
            ) => Some(
                ParsedLogEntry::Http {
                    unique_id,
                    full_id,
                    raw_request,
                    raw_response,
                    remote_address,
                    timestamp,
                },
            ),
            _ => None,
        },
        Protocol::Dns => match (
            unique_id,
            full_id,
            q_type,
            raw_request,
            raw_response,
            remote_address,
            timestamp,
        ) {
            (
                Some(unique_id),
                Some(full_id),
                Some(q_type),
                Some(raw_request),
                Some(raw_response),
                Some(remote_address),
                Some(timestamp),
            ) => Some(
                ParsedLogEntry::Dns {
                    unique_id,
                    full_id,
                    q_type,
                    raw_request,
                    raw_response,
                    remote_address,
                    timestamp,
                },
            ),
            _ => None,
        },
        Protocol::Ldap => match (
            unique_id,
            full_id,
            raw_request,
            raw_response,
            remote_address,
            timestamp,
        ) {
            (
                Some(unique_id),
                Some(full_id),
                Some(raw_request),
                Some(raw_response),
                Some(remote_address),
                Some(timestamp),
            ) => Some(
                ParsedLogEntry::Ldap {
                    unique_id,
                    full_id,
                    raw_request,
                    raw_response,
                    remote_address,
                    timestamp,
                },
            ),
            _ => None,
        },
        Protocol::Smb => match (raw_request, timestamp) {
            (Some(raw_request), Some(timestamp)) => Some(
                ParsedLogEntry::Smb { raw_request, timestamp },
            ),
            _ => None,
        },
        Protocol::Ftp => match (remote_address, raw_request, timestamp) {
            (Some(remote_address), Some(raw_request), Some(timestamp)) => Some(
                ParsedLogEntry::Ftp { remote_address, raw_request, timestamp },
            ),
            _ => None,
        },
        Protocol::Smtp => match (
            unique_id,
            full_id,
            raw_request,
            smtp_from,
            remote_address,
            timestamp,
        ) {
            (
                Some(unique_id),
                Some(full_id),
                Some(raw_request),
                Some(smtp_from),
                Some(remote_address),
                Some(timestamp),
            ) => Some(
                ParsedLogEntry::Smtp {
                    unique_id,
                    full_id,
                    raw_request,
                    smtp_from,
                    remote_address,
                    timestamp,
                },
            ),
            _ => None,
        },
    };
    match entry {
        Some(entry) => {
            assert(entry@.fields =~= given.restrict(names));
            assert(names.subset_of(given.dom()));
            Ok(Some(entry))
        },
        None => {
            assert(!names.subset_of(given.dom())) by {
                if names.subset_of(given.dom()) {
                    assert(names.contains(UNIQUE_ID@) ==> given.dom().contains(UNIQUE_ID@));
                    assert(names.contains(FULL_ID@) ==> given.dom().contains(FULL_ID@));
                    assert(names.contains(Q_TYPE@) ==> given.dom().contains(Q_TYPE@));
                    assert(names.contains(RAW_REQUEST@) ==> given.dom().contains(RAW_REQUEST@));
                    assert(names.contains(RAW_RESPONSE@) ==> given.dom().contains(
                        RAW_RESPONSE@,
                    ));
                    assert(names.contains(REMOTE_ADDRESS@) ==> given.dom().contains(
                        REMOTE_ADDRESS@,
                    ));
                    assert(names.contains(SMTP_FROM@) ==> given.dom().contains(SMTP_FROM@));
                    assert(names.contains(TIMESTAMP@) ==> given.dom().contains(TIMESTAMP@));
                }
            }
            Err(ClientError::DecodeError)
        },
    }
}

/// Decodes a batch: the interactions of its entries, in the order of the
/// batch. Entries that hold none are passed over, and so are structured
/// entries that lack a field of their protocol.
pub fn decode(raw_entries: &Vec<LogEntry>) -> (r: Vec<ParsedLogEntry>)
    ensures
        entry_views(r@) == decode_spec(raw_entries@),
{
    let mut out: Vec<ParsedLogEntry> = Vec::new();
    let mut i: usize = 0;
    assert(raw_entries@.take(0) =~= Seq::empty());
    assert(entry_views(out@) =~= Seq::empty());
    while i < raw_entries.len()
        invariant
            i <= raw_entries.len(),
            entry_views(out@) == decode_spec(raw_entries@.take(i as int)),
        decreases raw_entries.len() - i,
    {
        let ghost before = out@;
        proof {
            let next = raw_entries@.take(i as int + 1);
            assert(next.drop_last() =~= raw_entries@.take(i as int));
            assert(next.last() == raw_entries@[i as int]);
        }
        match decode_entry(&raw_entries[i]) {
            Ok(Some(entry)) => {
                out.push(entry);
                assert(entry_views(out@) =~= entry_views(before).push(entry@));
            },
            Ok(None) => {},
            Err(_) => {},
        }
        i += 1;
    }
    assert(raw_entries@.take(i as int) =~= raw_entries@);
    out
}

/// Decoding goes entry by entry: the interactions of two batches in a row
/// are those of the first followed by those of the second.
pub proof fn lemma_decode_concat(a: Seq<LogEntry>, b: Seq<LogEntry>)
    ensures
        decode_spec(a + b) == decode_spec(a) + decode_spec(b),
    decreases b.len(),
{
    if b.len() == 0 {
        assert(a + b =~= a);
        assert(decode_spec(a) + decode_spec(b) =~= decode_spec(a));
    } else {
        assert((a + b).drop_last() =~= a + b.drop_last());
        assert((a + b).last() == b.last());
        lemma_decode_concat(a, b.drop_last());
        match b.last().decoded() {
            Some(entry) => {
                assert((decode_spec(a) + decode_spec(b.drop_last())).push(entry) =~= decode_spec(a)
                    + decode_spec(b.drop_last()).push(entry));
            },
            None => {},
        }
    }
}

/// A batch in which every entry holds an interaction decodes to as many
/// interactions, each at the place of its entry.
pub proof fn lemma_decode_keeps_all(raw: Seq<LogEntry>)
    requires
        forall|i: int| 0 <= i < raw.len() ==> (#[trigger] raw[i]).decoded() is Some,
    ensures
        decode_spec(raw).len() == raw.len(),
        forall|i: int|
            0 <= i < raw.len() ==> Some(#[trigger] decode_spec(raw)[i]) == raw[i].decoded(),
    decreases raw.len(),
{
    if raw.len() > 0 {
        let rest = raw.drop_last();
        assert forall|i: int| 0 <= i < rest.len() implies (#[trigger] rest[i]).decoded() is Some by {
            assert(rest[i] == raw[i]);
        }
        lemma_decode_keeps_all(rest);
        assert(raw.last() == raw[raw.len() - 1]);
        assert forall|i: int| 0 <= i < raw.len() implies Some(#[trigger] decode_spec(raw)[i])
            == raw[i].decoded() by {
            if i < rest.len() {
                assert(rest[i] == raw[i]);
                assert(decode_spec(raw)[i] == decode_spec(rest)[i]);
            }
        }
    }
}

/// One entry without an interaction among entries that all hold one leaves
/// no trace: the batch decodes to the interactions of the others, as many
/// as they are and in their order.
pub proof fn lemma_decode_drops_control(
    before: Seq<LogEntry>,
    control: LogEntry,
    after: Seq<LogEntry>,
)
    requires
        control.decoded() is None,
        forall|i: int| 0 <= i < before.len() ==> (#[trigger] before[i]).decoded() is Some,
        forall|i: int| 0 <= i < after.len() ==> (#[trigger] after[i]).decoded() is Some,
    ensures
        decode_spec(before + seq![control] + after) == decode_spec(before + after),
        decode_spec(before + seq![control] + after).len() == before.len() + after.len(),
        forall|i: int|
            0 <= i < before.len() + after.len() ==> Some(
                #[trigger] decode_spec(before + seq![control] + after)[i],
            ) == (before + after)[i].decoded(),
{
    let one = seq![control];
    assert(decode_spec(one) =~= Seq::empty()) by {
        assert(one.drop_last() =~= Seq::empty());
        assert(one.last() == control);
        assert(decode_spec(one.drop_last()) =~= Seq::empty());
    }
    lemma_decode_concat(before, one);
    lemma_decode_concat(before + one, after);
    lemma_decode_concat(before, after);
    assert(decode_spec(before) + decode_spec(one) =~= decode_spec(before));
    let both = before + after;
    assert forall|i: int| 0 <= i < both.len() implies (#[trigger] both[i]).decoded() is Some by {
        if i < before.len() {
            assert(both[i] == before[i]);
        } else {
            assert(both[i] == after[i - before.len()]);
        }
    }
    lemma_decode_keeps_all(both);
}

} // verus!
