//! The stored form of the entry list: a JSON object with one member,
//! `passwords`, an array of objects with the text members `name`, `username`
//! and `password`. Further members are passed over where they have the same
//! shape, an array of objects of text at the top and text within an entry; a
//! member of any other shape makes the payload unreadable. A payload of no
//! bytes at all stands for the empty list: it is what a new vault holds.

use crate::codec::text_from_utf8;
use crate::errors::{ErrorView, VaultError};
use crate::models::{EntryView, PasswordEntry, PasswordList};
use crate::secret::wipe_text;
use std::collections::BTreeMap;
use vstd::prelude::*;
use vstd::utf8::*;

verus! {

/// The error of serde_json's calls, carried through unopened.
#[verifier::external_type_specification]
#[verifier::external_body]
pub struct ExJsonError(serde_json::Error);

/// A JSON object whose members are all text.
pub type RecordView = Map<Seq<char>, Seq<char>>;

/// A JSON object whose members are all arrays of records.
pub type DocumentView = Map<Seq<char>, Seq<RecordView>>;

/// The document that JSON `text` holds, or `None` where `text` is not a JSON
/// object of arrays of objects of text. Of two members with one key the later
/// stands.
pub uninterp spec fn json_document(text: Seq<char>) -> Option<
    Map<Seq<char>, Seq<Map<Seq<char>, Seq<char>>>>,
>;

/// The indented JSON text that serde_json writes for `document`.
pub uninterp spec fn json_text(document: Map<Seq<char>, Seq<Map<Seq<char>, Seq<char>>>>) -> Seq<char>;

/// The map that a list of keyed values stands for. Of two values with one key
/// the later stands.
pub open spec fn pairs_map<V, W>(pairs: Seq<(String, V)>, value: spec_fn(V) -> W) -> Map<
    Seq<char>,
    W,
>
    decreases pairs.len(),
{
    if pairs.len() == 0 {
        Map::empty()
    } else {
        pairs_map(pairs.drop_last(), value).insert(pairs.last().0@, value(pairs.last().1))
    }
}

/// Reads a text member.
pub open spec fn text_value() -> spec_fn(String) -> Seq<char> {
    |text: String| text@
}

/// Reads an array of records.
pub open spec fn records_value() -> spec_fn(Vec<Vec<(String, String)>>) -> Seq<RecordView> {
    |records: Vec<Vec<(String, String)>>| records_maps(records@)
}

/// The record that a list of text members stands for.
pub open spec fn fields_map(fields: Seq<(String, String)>) -> RecordView {
    pairs_map(fields, text_value())
}

/// The records that a list of lists of text members stands for.
pub open spec fn records_maps(records: Seq<Vec<(String, String)>>) -> Seq<RecordView> {
    Seq::new(records.len(), |i: int| fields_map(records[i]@))
}

/// The document that a list of keyed record arrays stands for.
pub open spec fn members_map(members: Seq<(String, Vec<Vec<(String, String)>>)>) -> DocumentView {
    pairs_map(members, records_value())
}

/// Whether no two pairs share a key.
pub open spec fn keys_distinct<V>(pairs: Seq<(String, V)>) -> bool {
    forall|i: int, j: int|
        0 <= i < j < pairs.len() ==> (#[trigger] pairs[i]).0@ != (#[trigger] pairs[j]).0@
}

/// Whether no two members share a key, and no two fields of any record.
pub open spec fn document_keys_distinct(members: Seq<(String, Vec<Vec<(String, String)>>)>) -> bool {
    &&& keys_distinct(members)
    &&& forall|m: int, r: int|
        0 <= m < members.len() && 0 <= r < members[m].1@.len() ==> keys_distinct(
            #[trigger] members[m].1@[r]@,
        )
}

/// Whether `at` is the place of the last pair whose key is `key`.
pub open spec fn is_last_keyed<V>(pairs: Seq<(String, V)>, key: Seq<char>, at: int) -> bool {
    &&& 0 <= at < pairs.len()
    &&& pairs[at].0@ == key
    &&& forall|j: int| at < j < pairs.len() ==> (#[trigger] pairs[j]).0@ != key
}

/// The last pair with a key gives the key's value in the map.
pub proof fn last_pair_stands<V, W>(
    pairs: Seq<(String, V)>,
    value: spec_fn(V) -> W,
    key: Seq<char>,
    at: int,
)
    requires
        is_last_keyed(pairs, key, at),
    ensures
        pairs_map(pairs, value).dom().contains(key),
        pairs_map(pairs, value)[key] == value(pairs[at].1),
    decreases pairs.len(),
{
    if at < pairs.len() - 1 {
        let front = pairs.drop_last();
        assert(pairs[pairs.len() - 1].0@ != key);
        assert(front[at] == pairs[at]);
        assert forall|j: int| at < j < front.len() implies (#[trigger] front[j]).0@ != key by {
            assert(front[j] == pairs[j]);
        }
        last_pair_stands(front, value, key, at);
    }
}

/// A key that no pair has is not in the map.
pub proof fn missing_key_is_absent<V, W>(
    pairs: Seq<(String, V)>,
    value: spec_fn(V) -> W,
    key: Seq<char>,
)
    requires
        forall|j: int| 0 <= j < pairs.len() ==> (#[trigger] pairs[j]).0@ != key,
    ensures
        !pairs_map(pairs, value).dom().contains(key),
    decreases pairs.len(),
{
    if pairs.len() > 0 {
        let front = pairs.drop_last();
        assert(pairs[pairs.len() - 1].0@ != key);
        assert forall|j: int| 0 <= j < front.len() implies (#[trigger] front[j]).0@ != key by {
            assert(front[j] == pairs[j]);
        }
        missing_key_is_absent(front, value, key);
    }
}

/// `serde_json::from_str` at the type of a map of strings to arrays of maps of
/// strings to strings. Trusted: it succeeds exactly on text that holds such a
/// document, and the members it returns stand for that document.
#[verifier::external_body]
pub(crate) fn json_parse(text: &str) -> (members: Result<
    Vec<(String, Vec<Vec<(String, String)>>)>,
    serde_json::Error,
>)
    ensures
        members is Ok <==> json_document(text@) is Some,
        members matches Ok(parsed) ==> json_document(text@) == Some(members_map(parsed@)),
{
    let document: BTreeMap<String, Vec<BTreeMap<String, String>>> = serde_json::from_str(text)?;
    Ok(
        document.into_iter().map(
            |(key, records)| (key, records.into_iter().map(|r| r.into_iter().collect()).collect()),
        ).collect(),
    )
}

/// `serde_json::to_string_pretty` on a map of strings to arrays of maps of
/// strings to strings. Trusted: on such a value it does not fail, the text is
/// not empty, and reading the text gives the document back. The members are
/// handed over as maps; with keys that differ, as `requires` asks, each of them
/// becomes one member of its map.
#[verifier::external_body]
pub(crate) fn json_write(members: &Vec<(String, Vec<Vec<(String, String)>>)>) -> (text: Result<
    String,
    serde_json::Error,
>)
    requires
        document_keys_distinct(members@),
    ensures
        text is Ok,
        text matches Ok(written) ==> {
            &&& written@ == json_text(members_map(members@))
            &&& written@.len() > 0
            &&& json_document(written@) == Some(members_map(members@))
        },
{
    let document: BTreeMap<&String, Vec<BTreeMap<&String, &String>>> = members.iter().map(
        |(key, records)| (key, records.iter().map(|r| r.iter().map(|(k, v)| (k, v)).collect()).collect()),
    ).collect();
    serde_json::to_string_pretty(&document)
}

/// A pair more at the end is one insertion more in the map.
pub proof fn pushed_pair_is_inserted<V, W>(
    pairs: Seq<(String, V)>,
    value: spec_fn(V) -> W,
    pair: (String, V),
)
    ensures
        pairs_map(pairs.push(pair), value) == pairs_map(pairs, value).insert(pair.0@, value(pair.1)),
{
    assert(pairs.push(pair).drop_last() =~= pairs);
}

/// The record that stands for an entry.
pub open spec fn record_of(entry: EntryView) -> RecordView {
    Map::<Seq<char>, Seq<char>>::empty().insert("name"@, entry.name).insert(
        "username"@,
        entry.username,
    ).insert("password"@, entry.password)
}

/// The document that stands for a list of entries.
pub open spec fn document_of(entries: Seq<EntryView>) -> DocumentView {
    Map::<Seq<char>, Seq<RecordView>>::empty().insert(
        "passwords"@,
        Seq::new(entries.len(), |i: int| record_of(entries[i])),
    )
}

/// Whether a record has the three members of an entry.
pub open spec fn record_complete(record: RecordView) -> bool {
    &&& record.dom().contains("name"@)
    &&& record.dom().contains("username"@)
    &&& record.dom().contains("password"@)
}

/// The entry that a complete record stands for.
pub open spec fn entry_of(record: RecordView) -> EntryView {
    EntryView {
        name: record["name"@],
        username: record["username"@],
        password: record["password"@],
    }
}

/// The entries that a document holds, or `None` where it has no member
/// `passwords` or one of the records in it is incomplete.
pub open spec fn entries_of(document: DocumentView) -> Option<Seq<EntryView>> {
    if document.dom().contains("passwords"@) && (forall|i: int|
        0 <= i < document["passwords"@].len() ==> record_complete(
            #[trigger] document["passwords"@][i],
        )) {
        Some(
            Seq::new(
                document["passwords"@].len(),
                |i: int| entry_of(document["passwords"@][i]),
            ),
        )
    } else {
        None
    }
}

/// The entries that a decrypted payload holds. No bytes at all stand for the
/// empty list; any other payload must be UTF-8 text of a JSON document that
/// holds entries.
pub open spec fn payload_entries(bytes: Seq<u8>) -> Result<Seq<EntryView>, ErrorView> {
    if bytes.len() == 0 {
        Ok(Seq::empty())
    } else if !valid_utf8(bytes) {
        Err(ErrorView::CorruptData)
    } else {
        match json_document(decode_utf8(bytes)) {
            Some(document) => match entries_of(document) {
                Some(entries) => Ok(entries),
                None => Err(ErrorView::CorruptData),
            },
            None => Err(ErrorView::CorruptData),
        }
    }
}

/// The text that is stored for a list of entries.
pub open spec fn payload_text(entries: Seq<EntryView>) -> Seq<char> {
    json_text(document_of(entries))
}

/// The three member names of an entry differ.
pub proof fn member_names_differ()
    ensures
        "name"@ != "username"@,
        "name"@ != "password"@,
        "username"@ != "password"@,
{
    reveal_strlit("name");
    reveal_strlit("username");
    reveal_strlit("password");
    assert("name"@.len() == 4);
    assert("username"@.len() == 8);
    assert("username"@[0] == 'u');
    assert("password"@[0] == 'p');
}

/// The document of a list of entries holds exactly those entries.
pub proof fn document_holds_its_entries(entries: Seq<EntryView>)
    ensures
        entries_of(document_of(entries)) == Some(entries),
{
    member_names_differ();
    let document = document_of(entries);
    let records = document["passwords"@];
    assert forall|i: int| 0 <= i < records.len() implies record_complete(#[trigger] records[i])
        && entry_of(records[i]) == entries[i] by {
        assert(records[i] == record_of(entries[i]));
    }
    assert(Seq::new(records.len(), |i: int| entry_of(document["passwords"@][i])) =~= entries);
}

/// The place of the last pair whose key is `key`.
pub fn last_keyed<V>(pairs: &Vec<(String, V)>, key: &str) -> (at: Option<usize>)
    ensures
        match at {
            Some(i) => is_last_keyed(pairs@, key@, i as int),
            None => forall|j: int| 0 <= j < pairs@.len() ==> (#[trigger] pairs@[j]).0@ != key@,
        },
{
    let wanted: String = key.to_owned();
    let mut i: usize = pairs.len();
    while i > 0
        invariant
            i <= pairs@.len(),
            wanted@ == key@,
            forall|j: int| i <= j < pairs@.len() ==> (#[trigger] pairs@[j]).0@ != key@,
        decreases i,
    {
        i -= 1;
        if pairs[i].0 == wanted {
            return Some(i);
        }
    }
    None
}

/// The text of the member `key` of a record, where it has one.
pub fn field_text(fields: &Vec<(String, String)>, key: &str) -> (text: Option<String>)
    ensures
        match text {
            Some(found) => fields_map(fields@).dom().contains(key@) && found@ == fields_map(
                fields@,
            )[key@],
            None => !fields_map(fields@).dom().contains(key@),
        },
{
    match last_keyed(fields, key) {
        Some(at) => {
            proof {
                last_pair_stands(fields@, text_value(), key@, at as int);
            }
            Some(fields[at].1.clone())
        },
        None => {
            proof {
                missing_key_is_absent(fields@, text_value(), key@);
            }
            None
        },
    }
}

/// The entry that a record stands for, where the record is complete.
pub fn entry_from_fields(fields: &Vec<(String, String)>) -> (entry: Option<PasswordEntry>)
    ensures
        match entry {
            Some(found) => record_complete(fields_map(fields@)) && found@ == entry_of(
                fields_map(fields@),
            ),
            None => !record_complete(fields_map(fields@)),
        },
{
    let name = match field_text(fields, "name") {
        Some(text) => text,
        None => {
            return None;
        },
    };
    let username = match field_text(fields, "username") {
        Some(text) => text,
        None => {
            return None;
        },
    };
    let password = match field_text(fields, "password") {
        Some(text) => text,
        None => {
            return None;
        },
    };
    Some(PasswordEntry { name, username, password })
}

/// The entries that parsed members hold: those of the member `passwords`,
/// where it is there and each of its records is complete.
pub fn entries_from_members(members: &Vec<(String, Vec<Vec<(String, String)>>)>) -> (list: Option<
    PasswordList,
>)
    ensures
        match entries_of(members_map(members@)) {
            Some(entries) => list matches Some(found) && found@ == entries,
            None => list is None,
        },
{
    let at = match last_keyed(members, "passwords") {
        Some(at) => at,
        None => {
            proof {
                missing_key_is_absent(members@, records_value(), "passwords"@);
            }
            return None;
        },
    };
    proof {
        last_pair_stands(members@, records_value(), "passwords"@, at as int);
    }
    let records = &members[at].1;
    let ghost stored = members_map(members@)["passwords"@];
    assert(stored == records_maps(records@));
    let mut passwords: Vec<PasswordEntry> = Vec::new();
    let mut i: usize = 0;
    while i < records.len()
        invariant
            i <= records@.len(),
            stored == records_maps(records@),
            members_map(members@).dom().contains("passwords"@),
            stored == members_map(members@)["passwords"@],
            passwords@.len() == i,
            forall|j: int| 0 <= j < i ==> record_complete(#[trigger] stored[j]),
            forall|j: int| 0 <= j < i ==> (#[trigger] passwords@[j])@ == entry_of(stored[j]),
        decreases records@.len() - i,
    {
        match entry_from_fields(&records[i]) {
            Some(entry) => {
                assert(stored[i as int] == fields_map(records@[i as int]@));
                passwords.push(entry);
            },
            None => {
                assert(stored[i as int] == fields_map(records@[i as int]@));
                assert(!record_complete(members_map(members@)["passwords"@][i as int]));
                return None;
            },
        }
        i += 1;
    }
    let list = PasswordList { passwords };
    assert(list@ =~= entries_of(members_map(members@))->Some_0);
    Some(list)
}

/// The members that stand for a list of entries.
pub fn members_from_entries(list: &PasswordList) -> (members: Vec<
    (String, Vec<Vec<(String, String)>>),
>)
    ensures
        members_map(members@) == document_of(list@),
        document_keys_distinct(members@),
{
    let mut records: Vec<Vec<(String, String)>> = Vec::new();
    let mut i: usize = 0;
    while i < list.passwords.len()
        invariant
            i <= list.passwords@.len(),
            records@.len() == i,
            forall|j: int| 0 <= j < i ==> fields_map((#[trigger] records@[j])@) == record_of(list@[j]),
            forall|j: int| 0 <= j < i ==> keys_distinct(#[trigger] records@[j]@),
        decreases list.passwords@.len() - i,
    {
        let entry = &list.passwords[i];
        let mut fields: Vec<(String, String)> = Vec::new();
        let name = ("name".to_owned(), entry.name.clone());
        let username = ("username".to_owned(), entry.username.clone());
        let password = ("password".to_owned(), entry.password.clone());
        proof {
            member_names_differ();
            let none = fields@;
            pushed_pair_is_inserted(none, text_value(), name);
            pushed_pair_is_inserted(none.push(name), text_value(), username);
            pushed_pair_is_inserted(none.push(name).push(username), text_value(), password);
        }
        fields.push(name);
        fields.push(username);
        fields.push(password);
        assert(fields_map(fields@) == record_of(list@[i as int]));
        assert(keys_distinct(fields@));
        records.push(fields);
        i += 1;
    }
    assert(records_maps(records@) =~= Seq::new(list@.len(), |j: int| record_of(list@[j])));
    let mut members: Vec<(String, Vec<Vec<(String, String)>>)> = Vec::new();
    let member = ("passwords".to_owned(), records);
    proof {
        pushed_pair_is_inserted(members@, records_value(), member);
    }
    members.push(member);
    assert(members@[0].1@ == records@);
    members
}

/// Overwrites every text of members that are no longer needed.
fn discard_members(members: Vec<(String, Vec<Vec<(String, String)>>)>) {
    let mut members = members;
    while members.len() > 0
        decreases members@.len(),
    {
        match members.pop() {
            Some(member) => {
                let (mut key, mut records) = member;
                wipe_text(&mut key);
                while records.len() > 0
                    decreases records@.len(),
                {
                    match records.pop() {
                        Some(fields) => discard_fields(fields),
                        None => {},
                    }
                }
            },
            None => {},
        }
    }
}

/// Overwrites every text of a record that is no longer needed.
fn discard_fields(fields: Vec<(String, String)>) {
    let mut fields = fields;
    while fields.len() > 0
        decreases fields@.len(),
    {
        match fields.pop() {
            Some(field) => {
                let (mut key, mut value) = field;
                wipe_text(&mut key);
                wipe_text(&mut value);
            },
            None => {},
        }
    }
}

impl PasswordList {
    /// Reads the entries from a decrypted payload. What was read on the way
    /// is overwritten before it is dropped.
    pub fn from_payload(bytes: Vec<u8>) -> (list: Result<PasswordList, VaultError>)
        ensures
            match payload_entries(bytes@) {
                Ok(entries) => list matches Ok(found) && found@ == entries,
                Err(error) => list matches Err(e) && e@ == error,
            },
    {
        if bytes.len() == 0 {
            return Ok(PasswordList::default());
        }
        let mut text = match text_from_utf8(bytes) {
            Ok(text) => text,
            Err(_) => {
                return Err(VaultError::CorruptData);
            },
        };
        let parsed = json_parse(text.as_str());
        wipe_text(&mut text);
        let members = match parsed {
            Ok(members) => members,
            Err(_) => {
                return Err(VaultError::CorruptData);
            },
        };
        let list = entries_from_members(&members);
        discard_members(members);
        match list {
            Some(list) => Ok(list),
            None => Err(VaultError::CorruptData),
        }
    }

    /// Writes the entries as the text that is stored. Reading the text's bytes
    /// as a payload gives the entries back.
    pub fn to_payload(&self) -> (text: Result<String, VaultError>)
        ensures
            text matches Ok(written) && written@ == payload_text(self@) && payload_entries(
                encode_utf8(written@),
            ) == Ok::<Seq<EntryView>, ErrorView>(self@),
    {
        let members = members_from_entries(self);
        let text = json_write(&members);
        discard_members(members);
        match text {
            Ok(written) => {
                proof {
                    broadcast use encode_utf8_valid_utf8, encode_utf8_decode_utf8;

                    let bytes = encode_utf8(written@);
                    assert(decode_utf8(bytes) == written@);
                    assert(bytes.len() != 0);
                    document_holds_its_entries(self@);
                }
                Ok(written)
            },
            Err(_) => Err(VaultError::CorruptData),
        }
    }
}

} // verus!
