//! Backups held by the remote store, as its JSON listing describes them.

use vstd::prelude::*;
use vstd::string::*;
use crate::clock::{parse_rfc3339, rfc3339_seconds};
use crate::error::{BackupError, ErrorKind, Failure};
use crate::record::{records, BackupInfo, BackupRecord};
use crate::service::CloudService;
use crate::text::{joined, text_of, texts};

verus! {

/// A JSON value of serde_json. Verus sees nothing inside it.
#[verifier::external_type_specification]
#[verifier::external_body]
pub struct ExJsonValue(serde_json::Value);

/// The members of a JSON object that are strings, by key. Empty for a value
/// that is no object.
pub uninterp spec fn json_texts(v: serde_json::Value) -> Map<Seq<char>, Seq<char>>;

/// The members of a JSON object that are integers which fit `u64`, by key.
/// Empty for a value that is no object.
pub uninterp spec fn json_numbers(v: serde_json::Value) -> Map<Seq<char>, u64>;

/// What serde_json reads out of a text that should hold a JSON array: its
/// items, or the message of the parse error.
pub uninterp spec fn json_list(text: Seq<char>) -> Result<Seq<serde_json::Value>, Seq<char>>;

/// What a parsed list stands for.
pub open spec fn list_view(
    r: Result<Vec<serde_json::Value>, String>,
) -> Result<Seq<serde_json::Value>, Seq<char>> {
    match r {
        Ok(items) => Ok(items@),
        Err(why) => Err(why@),
    }
}

/// The string under `key`, if `v` is an object that has one there.
pub open spec fn text_at(v: serde_json::Value, key: Seq<char>) -> Option<Seq<char>> {
    if json_texts(v).contains_key(key) {
        Some(json_texts(v)[key])
    } else {
        None
    }
}

/// The unsigned integer under `key`, if `v` is an object that has one there.
pub open spec fn number_at(v: serde_json::Value, key: Seq<char>) -> Option<u64> {
    if json_numbers(v).contains_key(key) {
        Some(json_numbers(v)[key])
    } else {
        None
    }
}

/// Calls `serde_json::from_str` for a `Vec<serde_json::Value>`. The result is
/// only named; a parse error is handed on as its message.
#[verifier::external_body]
fn parse_json_list(text: &str) -> (r: Result<Vec<serde_json::Value>, String>)
    ensures
        list_view(r) == json_list(text@),
{
    match serde_json::from_str::<Vec<serde_json::Value>>(text) {
        Ok(items) => Ok(items),
        Err(e) => Err(e.to_string()),
    }
}

/// Indexes a `serde_json::Value` by a key and calls `Value::as_str` on what is
/// there: the string member under that key, `None` where the value is no
/// object, has no such member, or the member is no string.
#[verifier::external_body]
fn json_text(v: &serde_json::Value, key: &str) -> (r: Option<String>)
    ensures
        text_of(r) == if json_texts(*v).contains_key(key@) {
            Some(json_texts(*v)[key@])
        } else {
            None
        },
{
    match v[key].as_str() {
        Some(s) => Some(s.to_string()),
        None => None,
    }
}

/// Indexes a `serde_json::Value` by a key and calls `Value::as_u64` on what is
/// there: the member under that key where it is an integer that fits `u64`.
#[verifier::external_body]
fn json_number(v: &serde_json::Value, key: &str) -> (r: Option<u64>)
    ensures
        r == if json_numbers(*v).contains_key(key@) {
            Some(json_numbers(*v)[key@])
        } else {
            None
        },
{
    v[key].as_u64()
}

/// The number of backups the remote store keeps.
pub const MAX_CLOUDKIT_BACKUPS: usize = 10;

/// When a remote record was created: what its `createdAt` spells, or `now`
/// where that is missing, empty or no RFC 3339 time.
pub open spec fn remote_created_at(v: serde_json::Value, now: i64) -> i64 {
    match text_at(v, "createdAt"@) {
        Some(t) if t.len() > 0 => match rfc3339_seconds(t) {
            Some(secs) => secs,
            None => now,
        },
        _ => now,
    }
}

/// The id of a remote record, empty where it has none.
pub open spec fn remote_id(v: serde_json::Value) -> Seq<char> {
    match text_at(v, "id"@) {
        Some(id) => id,
        None => Seq::empty(),
    }
}

/// The backup that one item of the remote listing describes. A record without
/// a file name is shown under its id, one without a size as empty.
pub open spec fn remote_record(v: serde_json::Value, now: i64) -> BackupRecord {
    BackupRecord {
        id: remote_id(v),
        service: CloudService::Icloud,
        filename: match text_at(v, "filename"@) {
            Some(name) => name,
            None => remote_id(v),
        },
        size: match number_at(v, "size"@) {
            Some(n) => n,
            None => 0,
        },
        created_at: remote_created_at(v, now),
    }
}

/// The backups that the items of a remote listing describe, in their order.
pub open spec fn remote_records(items: Seq<serde_json::Value>, now: i64) -> Seq<BackupRecord> {
    Seq::new(items.len(), |i: int| remote_record(items[i], now))
}

/// The ids of the records past the first `MAX_CLOUDKIT_BACKUPS`, in their
/// order, leaving out records without an id.
pub open spec fn surplus_ids(items: Seq<serde_json::Value>) -> Seq<Seq<char>>
    decreases items.len(),
{
    if items.len() <= MAX_CLOUDKIT_BACKUPS {
        Seq::empty()
    } else {
        let before = surplus_ids(items.drop_last());
        match text_at(items.last(), "id"@) {
            Some(id) => before.push(id),
            None => before,
        }
    }
}

/// The failure for a remote listing that is no JSON array.
pub open spec fn unreadable_listing(why: Seq<char>) -> Failure {
    Failure { kind: ErrorKind::IoFailure, message: "JSON 파싱 오류: "@ + why }
}

/// The backup that a remote record with these members stands for: one without
/// an id has an empty id, one without a file name goes by its id, one without
/// a size counts as empty, and one without a time of creation as made at `now`.
pub open spec fn record_of_members(
    id: Option<Seq<char>>,
    filename: Option<Seq<char>>,
    size: Option<u64>,
    created_at: Option<i64>,
    now: i64,
) -> BackupRecord {
    let id = match id {
        Some(id) => id,
        None => Seq::empty(),
    };
    BackupRecord {
        id,
        service: CloudService::Icloud,
        filename: match filename {
            Some(name) => name,
            None => id,
        },
        size: match size {
            Some(n) => n,
            None => 0,
        },
        created_at: match created_at {
            Some(secs) => secs,
            None => now,
        },
    }
}

/// Makes the backup that a remote record with these members stands for.
pub fn remote_backup(
    id: Option<String>,
    filename: Option<String>,
    size: Option<u64>,
    created_at: Option<i64>,
    now: i64,
) -> (b: BackupInfo)
    ensures
        b@ == record_of_members(text_of(id), text_of(filename), size, created_at, now),
{
    let id = match id {
        Some(id) => id,
        None => String::new(),
    };
    let filename = match filename {
        Some(name) => name,
        None => id.clone(),
    };
    let size = match size {
        Some(n) => n,
        None => 0,
    };
    let created_at = match created_at {
        Some(secs) => secs,
        None => now,
    };
    BackupInfo { id, service: CloudService::Icloud, filename, size, created_at }
}

fn item_to_backup(v: &serde_json::Value, now: i64) -> (b: BackupInfo)
    ensures
        b@ == remote_record(*v, now),
{
    let created_at = match json_text(v, "createdAt") {
        Some(t) => {
            if t.as_str().unicode_len() > 0 {
                parse_rfc3339(t.as_str())
            } else {
                None
            }
        },
        None => None,
    };
    remote_backup(json_text(v, "id"), json_text(v, "filename"), json_number(v, "size"), created_at, now)
}

/// Turns the items of a remote listing into backups, one for each item and in
/// the order the remote store sent them.
pub fn backups_from_remote(items: &Vec<serde_json::Value>, now: i64) -> (backups: Vec<BackupInfo>)
    ensures
        records(backups@) == remote_records(items@, now),
{
    let mut found: Vec<BackupInfo> = Vec::new();
    let mut i: usize = 0;
    while i < items.len()
        invariant
            i <= items.len(),
            found@.len() == i,
            forall|k: int| 0 <= k < i ==> (#[trigger] found@[k])@ == remote_record(items@[k], now),
        decreases items.len() - i,
    {
        found.push(item_to_backup(&items[i], now));
        i = i + 1;
    }
    assert(records(found@) =~= remote_records(items@, now));
    found
}

/// What listing the remote store owes for the text it sent: a failure where
/// the text is no JSON array, else the backups it describes, in the order of
/// the text, which the store sends newest first.
pub open spec fn remote_listing_outcome(
    parsed: Result<Seq<serde_json::Value>, Seq<char>>,
    now: i64,
    r: Result<Vec<BackupInfo>, BackupError>,
) -> bool {
    match parsed {
        Err(why) => r is Err && r->Err_0@ == unreadable_listing(why),
        Ok(items) => {
            &&& r is Ok
            &&& records(r->Ok_0@) == remote_records(items, now)
        },
    }
}

/// Lists the backups of the remote store from the parsed listing it sent.
pub fn backups_from_parsed(
    parsed: Result<Vec<serde_json::Value>, String>,
    now: i64,
) -> (r: Result<Vec<BackupInfo>, BackupError>)
    ensures
        remote_listing_outcome(list_view(parsed), now, r),
{
    match parsed {
        Err(why) => Err(
            BackupError::new(ErrorKind::IoFailure, joined("JSON 파싱 오류: ", why.as_str())),
        ),
        Ok(items) => Ok(backups_from_remote(&items, now)),
    }
}

/// Lists the backups of the remote store from the JSON text it sent.
pub fn list_cloudkit_backups_as_info(
    json: &str,
    now: i64,
) -> (r: Result<Vec<BackupInfo>, BackupError>)
    ensures
        remote_listing_outcome(json_list(json@), now, r),
{
    backups_from_parsed(parse_json_list(json), now)
}

/// The ids of the remote records to delete so that `MAX_CLOUDKIT_BACKUPS`
/// remain: those past the first ten of the listing, which the store sends
/// newest first.
pub fn surplus_remote_ids(items: &Vec<serde_json::Value>) -> (ids: Vec<String>)
    ensures
        texts(ids@) == surplus_ids(items@),
{
    let mut ids: Vec<String> = Vec::new();
    let mut i: usize = 0;
    assert(items@.subrange(0, 0) =~= Seq::<serde_json::Value>::empty());
    assert(texts(ids@) =~= surplus_ids(items@.subrange(0, 0)));
    while i < items.len()
        invariant
            i <= items.len(),
            texts(ids@) == surplus_ids(items@.subrange(0, i as int)),
        decreases items.len() - i,
    {
        let ghost upto = items@.subrange(0, i + 1);
        let ghost before = texts(ids@);
        assert(upto.drop_last() =~= items@.subrange(0, i as int));
        assert(upto.last() == items@[i as int]);
        if i >= MAX_CLOUDKIT_BACKUPS {
            match json_text(&items[i], "id") {
                Some(id) => {
                    ids.push(id);
                    assert(texts(ids@) =~= before.push(id@));
                },
                None => {},
            }
        }
        i = i + 1;
    }
    assert(items@.subrange(0, i as int) =~= items@);
    ids
}

/// What the retention sweep of the remote store owes for the listing text.
pub open spec fn remote_cleanup_outcome(
    parsed: Result<Seq<serde_json::Value>, Seq<char>>,
    r: Result<Vec<String>, BackupError>,
) -> bool {
    match parsed {
        Err(why) => r is Err && r->Err_0@ == unreadable_listing(why),
        Ok(items) => r is Ok && texts(r->Ok_0@) == surplus_ids(items),
    }
}

/// Picks the remote records to delete from the parsed listing.
pub fn surplus_from_parsed(
    parsed: Result<Vec<serde_json::Value>, String>,
) -> (r: Result<Vec<String>, BackupError>)
    ensures
        remote_cleanup_outcome(list_view(parsed), r),
{
    match parsed {
        Err(why) => Err(
            BackupError::new(ErrorKind::IoFailure, joined("JSON 파싱 오류: ", why.as_str())),
        ),
        Ok(items) => Ok(surplus_remote_ids(&items)),
    }
}

/// Picks the remote records to delete after an upload, from the JSON listing
/// of the remote store. The caller deletes them one by one and goes on past
/// a record that cannot be deleted.
pub fn cleanup_old_cloudkit_backups(json: &str) -> (r: Result<Vec<String>, BackupError>)
    ensures
        remote_cleanup_outcome(json_list(json@), r),
{
    surplus_from_parsed(parse_json_list(json))
}

} // verus!
