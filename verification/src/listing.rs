//! Turning what a backup folder holds into the list of backups shown to the user.

use vstd::prelude::*;
use vstd::string::*;
use crate::error::{BackupError, ErrorKind, Failure};
use crate::naming::{
    backup_id_from_filename, backup_id_of, backup_name, has_backup_extension, is_backup_name,
    lemma_backup_name_is_recognised,
};
use crate::record::{newest_first, records, sort_newest_first, BackupInfo, BackupRecord};
use crate::service::CloudService;
use crate::text::joined;

verus! {

/// What the file system tells of one file.
#[derive(Debug, PartialEq, Eq)]
pub struct FileMeta {
    /// Length in bytes.
    pub size: u64,
    /// Time of the last change in seconds since the Unix epoch, where the
    /// platform records one.
    pub modified: Option<i64>,
}

/// One entry met while reading a folder.
#[derive(Debug, PartialEq, Eq)]
pub enum EntryRead {
    /// The entry could not be read; the text says why.
    Failed(String),
    /// A file, with its name and what reading its metadata gave.
    Found { filename: String, meta: Result<FileMeta, String> },
}

/// What reading a backup folder gave.
#[derive(Debug, PartialEq, Eq)]
pub enum DirListing {
    /// The folder does not exist.
    Missing,
    /// The folder exists and could not be opened; the text says why.
    Unreadable(String),
    /// The entries of the folder, in the order they were read.
    Entries(Vec<EntryRead>),
}

/// Where the list of a backend's backups is read from.
#[derive(Debug, Clone, Copy, PartialEq, Eq, Structural)]
pub enum ListingSource {
    /// The backend's folder on disk.
    Folder,
    /// The remote store; the disk is not touched.
    RemoteStore,
}

/// Tells where to read the list of a backend's backups: the synced backend
/// is listed from the remote store, every other from its folder.
pub fn listing_source(service: CloudService) -> (source: ListingSource)
    ensures
        source == if service == CloudService::Icloud {
            ListingSource::RemoteStore
        } else {
            ListingSource::Folder
        },
{
    if service == CloudService::Icloud {
        ListingSource::RemoteStore
    } else {
        ListingSource::Folder
    }
}

/// Why listing stops at this entry, if it does: the entry itself was
/// unreadable, or it is a snapshot whose metadata was.
pub open spec fn entry_failure(e: EntryRead) -> Option<Seq<char>> {
    match e {
        EntryRead::Failed(why) => Some(why@),
        EntryRead::Found { filename, meta } => match meta {
            Err(why) if is_backup_name(filename@) => Some(why@),
            _ => None,
        },
    }
}

/// The backup that an entry stands for, if it is a snapshot. A snapshot without
/// a recorded change time counts as created at `now`.
pub open spec fn entry_record(
    e: EntryRead,
    service: CloudService,
    now: i64,
) -> Option<BackupRecord> {
    match e {
        EntryRead::Found { filename, meta: Ok(m) } if is_backup_name(filename@) => Some(
            BackupRecord {
                id: backup_id_of(filename@),
                service,
                filename: filename@,
                size: m.size,
                created_at: match m.modified {
                    Some(t) => t,
                    None => now,
                },
            },
        ),
        _ => None,
    }
}

/// The failure of the earliest entry that has one.
pub open spec fn first_failure(entries: Seq<EntryRead>) -> Option<Seq<char>>
    decreases entries.len(),
{
    if entries.len() == 0 {
        None
    } else {
        match first_failure(entries.drop_last()) {
            Some(why) => Some(why),
            None => entry_failure(entries.last()),
        }
    }
}

/// The backups among the entries, in the order the entries were read.
pub open spec fn entry_records(
    entries: Seq<EntryRead>,
    service: CloudService,
    now: i64,
) -> Seq<BackupRecord>
    decreases entries.len(),
{
    if entries.len() == 0 {
        Seq::empty()
    } else {
        let before = entry_records(entries.drop_last(), service, now);
        match entry_record(entries.last(), service, now) {
            Some(r) => before.push(r),
            None => before,
        }
    }
}

/// The failure of a folder that exists and cannot be opened.
pub open spec fn unreadable_dir(why: Seq<char>) -> Failure {
    Failure { kind: ErrorKind::IoFailure, message: "Failed to read backup directory: "@ + why }
}

/// What listing owes for the entries of a folder: the failure where reading
/// failed, else the snapshots newest first.
pub open spec fn entries_outcome(
    entries: Seq<EntryRead>,
    service: CloudService,
    now: i64,
    r: Result<Vec<BackupInfo>, BackupError>,
) -> bool {
    match first_failure(entries) {
        Some(why) => r is Err && r->Err_0@ == (Failure { kind: ErrorKind::IoFailure, message: why }),
        None => {
            &&& r is Ok
            &&& newest_first(records(r->Ok_0@))
            &&& records(r->Ok_0@).to_multiset() == entry_records(entries, service, now).to_multiset()
        },
    }
}

/// What `list_backups` owes for a reading of the folder: nothing for a missing
/// folder, a failure for one that cannot be opened, else what its entries give.
pub open spec fn listing_outcome(
    listing: DirListing,
    service: CloudService,
    now: i64,
    r: Result<Vec<BackupInfo>, BackupError>,
) -> bool {
    match listing {
        DirListing::Missing => r is Ok && r->Ok_0@.len() == 0,
        DirListing::Unreadable(why) => r is Err && r->Err_0@ == unreadable_dir(why@),
        DirListing::Entries(entries) => entries_outcome(entries@, service, now, r),
    }
}

/// Lists the backups among the entries of a folder.
pub fn list_entries(
    entries: &Vec<EntryRead>,
    service: &CloudService,
    now: i64,
) -> (r: Result<Vec<BackupInfo>, BackupError>)
    ensures
        entries_outcome(entries@, *service, now, r),
{
    let mut found: Vec<BackupInfo> = Vec::new();
    let mut i: usize = 0;
    assert(entries@.subrange(0, 0) =~= Seq::<EntryRead>::empty());
    assert(records(found@) =~= Seq::<BackupRecord>::empty());
    while i < entries.len()
        invariant
            i <= entries.len(),
            first_failure(entries@.subrange(0, i as int)) is None,
            records(found@) == entry_records(entries@.subrange(0, i as int), *service, now),
        decreases entries.len() - i,
    {
        let ghost upto = entries@.subrange(0, i + 1);
        let ghost before = records(found@);
        assert(upto.drop_last() =~= entries@.subrange(0, i as int));
        assert(upto.last() == entries@[i as int]);
        match &entries[i] {
            EntryRead::Failed(why) => {
                proof {
                    lemma_failure_stays(upto, entries@);
                }
                return Err(BackupError::new(ErrorKind::IoFailure, why.clone()));
            },
            EntryRead::Found { filename, meta } => {
                if has_backup_extension(filename.as_str()) {
                    match meta {
                        Err(why) => {
                            proof {
                                lemma_failure_stays(upto, entries@);
                            }
                            return Err(BackupError::new(ErrorKind::IoFailure, why.clone()));
                        },
                        Ok(m) => {
                            let created_at = match m.modified {
                                Some(t) => t,
                                None => now,
                            };
                            found.push(
                                BackupInfo {
                                    id: backup_id_from_filename(filename.as_str()),
                                    service: *service,
                                    filename: filename.clone(),
                                    size: m.size,
                                    created_at,
                                },
                            );
                            assert(records(found@) =~= before.push(
                                entry_record(entries@[i as int], *service, now)->Some_0,
                            ));
                        },
                    }
                }
            },
        }
        i = i + 1;
    }
    assert(entries@.subrange(0, i as int) =~= entries@);
    Ok(sort_newest_first(found))
}

/// Lists the backups of a folder from what reading the folder gave.
pub fn list_backups(
    listing: &DirListing,
    service: &CloudService,
    now: i64,
) -> (r: Result<Vec<BackupInfo>, BackupError>)
    ensures
        listing_outcome(*listing, *service, now, r),
{
    match listing {
        DirListing::Missing => Ok(Vec::new()),
        DirListing::Unreadable(why) => Err(
            BackupError::new(
                ErrorKind::IoFailure,
                joined("Failed to read backup directory: ", why.as_str()),
            ),
        ),
        DirListing::Entries(entries) => list_entries(entries, service, now),
    }
}

/// A failure met in the first entries of a folder is the failure of the whole.
pub proof fn lemma_failure_stays(head: Seq<EntryRead>, all: Seq<EntryRead>)
    requires
        head.len() <= all.len(),
        head == all.subrange(0, head.len() as int),
        first_failure(head) is Some,
    ensures
        first_failure(all) == first_failure(head),
    decreases all.len() - head.len(),
{
    if head.len() < all.len() {
        let next = all.subrange(0, head.len() as int + 1);
        assert(next.drop_last() =~= head);
        lemma_failure_stays(next, all);
    } else {
        assert(head =~= all);
    }
}

/// When a backup taken at the time that `stamp` spells has been added to a
/// folder that was read without failure and held no file of that name, the
/// folder lists exactly one more backup than before: the new one, under its
/// file name and with the size of its file.
pub proof fn lemma_created_backup_is_listed(
    entries: Seq<EntryRead>,
    added: EntryRead,
    stamp: Seq<char>,
    service: CloudService,
    now: i64,
)
    requires
        first_failure(entries) is None,
        added matches EntryRead::Found { filename, meta } && filename@ == backup_name(stamp)
            && meta is Ok,
        forall|i: int|
            0 <= i < entries.len() && (#[trigger] entries[i]) is Found ==> entries[i]->filename@
                != backup_name(stamp),
    ensures
        first_failure(entries.push(added)) is None,
        entry_record(added, service, now) matches Some(r) && r.filename == backup_name(stamp)
            && r.id == stamp && r.size == added->meta->Ok_0.size && entry_records(
            entries.push(added),
            service,
            now,
        ) == entry_records(entries, service, now).push(r),
        entry_records(entries.push(added), service, now).len() == entry_records(
            entries,
            service,
            now,
        ).len() + 1,
        entry_records(entries.push(added), service, now).to_multiset() == entry_records(
            entries,
            service,
            now,
        ).to_multiset().insert(entry_record(added, service, now)->Some_0),
        forall|k: int|
            0 <= k < entry_records(entries, service, now).len() ==> (#[trigger] entry_records(
                entries,
                service,
                now,
            )[k]).filename != backup_name(stamp),
{
    lemma_backup_name_is_recognised(stamp);
    lemma_absent_file_is_not_listed(entries, backup_name(stamp), service, now);
    let after = entries.push(added);
    assert(after.drop_last() =~= entries);
    assert(after.last() == added);
    vstd::seq_lib::to_multiset_build(
        entry_records(entries, service, now),
        entry_record(added, service, now)->Some_0,
    );
}

/// A file that is not in the folder is not listed.
pub proof fn lemma_absent_file_is_not_listed(
    entries: Seq<EntryRead>,
    name: Seq<char>,
    service: CloudService,
    now: i64,
)
    requires
        forall|i: int|
            0 <= i < entries.len() && (#[trigger] entries[i]) is Found ==> entries[i]->filename@
                != name,
    ensures
        forall|k: int|
            0 <= k < entry_records(entries, service, now).len() ==> (#[trigger] entry_records(
                entries,
                service,
                now,
            )[k]).filename != name,
    decreases entries.len(),
{
    if entries.len() > 0 {
        lemma_absent_file_is_not_listed(entries.drop_last(), name, service, now);
    }
}

} // verus!
