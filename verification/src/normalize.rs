use vstd::prelude::*;
use crate::entry::{entry_views, EntryView, ParsedLogEntry};
use crate::fields::{
    FULL_ID, Q_TYPE, RAW_REQUEST, RAW_RESPONSE, REMOTE_ADDRESS, SMTP_FROM, TIMESTAMP, UNIQUE_ID,
};
use crate::record::NormalizedRecord;

verus! {

/// The single mapping that a list of interactions flattens to: the fields of
/// all of them, where a later interaction overrides an earlier one on the
/// names that both have.
pub open spec fn flatten_spec(entries: Seq<EntryView>) -> Map<Seq<char>, Seq<char>>
    decreases entries.len(),
{
    if entries.len() == 0 {
        Map::empty()
    } else {
        flatten_spec(entries.drop_last()).union_prefer_right(entries.last().fields)
    }
}

/// A flattened record has a name exactly if some interaction of the list
/// has a field of that name.
pub proof fn lemma_flatten_names(entries: Seq<EntryView>, name: Seq<char>)
    ensures
        flatten_spec(entries).contains_key(name) <==> exists|i: int|
            0 <= i < entries.len() && (#[trigger] entries[i]).fields.contains_key(name),
    decreases entries.len(),
{
    if entries.len() > 0 {
        let rest = entries.drop_last();
        lemma_flatten_names(rest, name);
        if flatten_spec(entries).contains_key(name) {
            if entries.last().fields.contains_key(name) {
                assert(entries[entries.len() - 1].fields.contains_key(name));
            } else {
                let i = choose|i: int|
                    0 <= i < rest.len() && (#[trigger] rest[i]).fields.contains_key(name);
                assert(entries[i].fields.contains_key(name));
            }
        }
        if exists|i: int|
            0 <= i < entries.len() && (#[trigger] entries[i]).fields.contains_key(name) {
            let i = choose|i: int|
                0 <= i < entries.len() && (#[trigger] entries[i]).fields.contains_key(name);
            if i < rest.len() {
                assert(rest[i].fields.contains_key(name));
            }
        }
    }
}

/// The last write wins: under a name, a flattened record holds the value of
/// the last interaction of the list that has a field of that name.
pub proof fn lemma_flatten_last_wins(entries: Seq<EntryView>, name: Seq<char>, last: int)
    requires
        0 <= last < entries.len(),
        entries[last].fields.contains_key(name),
        forall|j: int| last < j < entries.len() ==> !(#[trigger] entries[j]).fields.contains_key(name),
    ensures
        flatten_spec(entries).contains_key(name),
        flatten_spec(entries)[name] == entries[last].fields[name],
    decreases entries.len(),
{
    let rest = entries.drop_last();
    if last < entries.len() - 1 {
        assert(!entries[entries.len() - 1].fields.contains_key(name));
        assert(rest[last] == entries[last]);
        assert forall|j: int| last < j < rest.len() implies !(#[trigger] rest[j]).fields.contains_key(
            name,
        ) by {
            assert(rest[j] == entries[j]);
        }
        lemma_flatten_last_wins(rest, name, last);
    }
}

/// Flattening a single interaction gives its own fields.
pub proof fn lemma_flatten_single(entry: EntryView)
    ensures
        flatten_spec(seq![entry]) == entry.fields,
{
    let one = seq![entry];
    assert(one.drop_last() =~= Seq::empty());
    assert(flatten_spec(one.drop_last()) =~= Map::empty());
    assert(flatten_spec(one) =~= entry.fields);
}

/// Puts one field into a record.
fn put(record: &mut NormalizedRecord, name: &str, value: &String)
    ensures
        final(record)@ == old(record)@.insert(name@, value@),
{
    record.set(name.to_owned(), value.clone());
}

/// The record of one interaction: each field of the interaction under its
/// name, and nothing else.
pub fn convert_entry_table(log_entry: &ParsedLogEntry) -> (r: NormalizedRecord)
    ensures
        r@ == log_entry@.fields,
{
    let mut results = NormalizedRecord::new();
    match log_entry {
        ParsedLogEntry::Http {
            unique_id,
            full_id,
            raw_request,
            raw_response,
            remote_address,
            timestamp,
        } => {
            put(&mut results, UNIQUE_ID, unique_id);
            put(&mut results, FULL_ID, full_id);
            put(&mut results, RAW_REQUEST, raw_request);
            put(&mut results, RAW_RESPONSE, raw_response);
            put(&mut results, REMOTE_ADDRESS, remote_address);
            put(&mut results, TIMESTAMP, timestamp);
        },
        ParsedLogEntry::Dns {
            unique_id,
            full_id,
            q_type,
            raw_request,
            raw_response,
            remote_address,
            timestamp,
        } => {
            put(&mut results, Q_TYPE, q_type);
            put(&mut results, UNIQUE_ID, unique_id);
            put(&mut results, FULL_ID, full_id);
            put(&mut results, RAW_REQUEST, raw_request);
            put(&mut results, RAW_RESPONSE, raw_response);
            put(&mut results, REMOTE_ADDRESS, remote_address);
            put(&mut results, TIMESTAMP, timestamp);
        },
        ParsedLogEntry::Ldap {
            unique_id,
            full_id,
            raw_request,
            raw_response,
            remote_address,
            timestamp,
        } => {
            put(&mut results, UNIQUE_ID, unique_id);
            put(&mut results, FULL_ID, full_id);
            put(&mut results, RAW_REQUEST, raw_request);
            put(&mut results, RAW_RESPONSE, raw_response);
            put(&mut results, REMOTE_ADDRESS, remote_address);
            put(&mut results, TIMESTAMP, timestamp);
        },
        ParsedLogEntry::Smb { raw_request, timestamp } => {
            put(&mut results, RAW_REQUEST, raw_request);
            put(&mut results, TIMESTAMP, timestamp);
        },
        ParsedLogEntry::Ftp { remote_address, raw_request, timestamp } => {
            put(&mut results, RAW_REQUEST, raw_request);
            put(&mut results, REMOTE_ADDRESS, remote_address);
            put(&mut results, TIMESTAMP, timestamp);
        },
        ParsedLogEntry::Smtp {
            unique_id,
            full_id,
            raw_request,
            smtp_from,
            remote_address,
            timestamp,
        } => {
            put(&mut results, UNIQUE_ID, unique_id);
            put(&mut results, FULL_ID, full_id);
            put(&mut results, SMTP_FROM, smtp_from);
            put(&mut results, RAW_REQUEST, raw_request);
            put(&mut results, REMOTE_ADDRESS, remote_address);
            put(&mut results, TIMESTAMP, timestamp);
        },
    }
    results
}

/// One record for each interaction, in the order of the list.
pub fn normalize(entries: &Vec<ParsedLogEntry>) -> (r: Vec<NormalizedRecord>)
    ensures
        r.len() == entries.len(),
        forall|i: int| 0 <= i < entries.len() ==> (#[trigger] r[i])@ == entries[i]@.fields,
{
    let mut out: Vec<NormalizedRecord> = Vec::new();
    let mut i: usize = 0;
    while i < entries.len()
        invariant
            i <= entries.len(),
            out.len() == i,
            forall|j: int| 0 <= j < i ==> (#[trigger] out[j])@ == entries[j]@.fields,
        decreases entries.len() - i,
    {
        out.push(convert_entry_table(&entries[i]));
        i += 1;
    }
    out
}

/// All interactions of a list in one record: the fields of each are written
/// in turn, so that of two interactions with a field of the same name the
/// later one decides the value.
pub fn flatten(entries: &Vec<ParsedLogEntry>) -> (r: NormalizedRecord)
    ensures
        r@ == flatten_spec(entry_views(entries@)),
{
    let mut results = NormalizedRecord::new();
    let mut i: usize = 0;
    let ghost views = entry_views(entries@);
    assert(views.take(0) =~= Seq::empty());
    while i < entries.len()
        invariant
            i <= entries.len(),
            views == entry_views(entries@),
            results@ == flatten_spec(views.take(i as int)),
        decreases entries.len() - i,
    {
        let one = convert_entry_table(&entries[i]);
        proof {
            let next = views.take(i as int + 1);
            assert(next.drop_last() =~= views.take(i as int));
            assert(next.last() == entries@[i as int]@);
        }
        results.merge(&one);
        i += 1;
    }
    assert(views.take(i as int) =~= views);
    results
}

} // verus!
