//! What a backup folder lists once a backup has been written into it, whether
//! under a name that is new to the folder or under one it held before.

use vstd::prelude::*;
use crate::listing::{entry_failure, entry_record, entry_records, first_failure, EntryRead};
use crate::naming::{backup_name, lemma_backup_name_is_recognised};
use crate::record::BackupRecord;
use crate::service::CloudService;

verus! {

/// Whether the folder holds a file of this name.
pub open spec fn holds_name(entries: Seq<EntryRead>, name: Seq<char>) -> bool {
    exists|i: int|
        0 <= i < entries.len() && (#[trigger] entries[i]) is Found && entries[i]->filename@ == name
}

/// The place of the file of this name among the entries, if there is one.
pub open spec fn place_of_name(entries: Seq<EntryRead>, name: Seq<char>) -> int {
    choose|i: int|
        0 <= i < entries.len() && (#[trigger] entries[i]) is Found && entries[i]->filename@ == name
}

/// Whether the files of the folder all have different names, as the files of
/// one folder do.
pub open spec fn names_differ(entries: Seq<EntryRead>) -> bool {
    forall|i: int, j: int|
        0 <= i < j < entries.len() && (#[trigger] entries[i]) is Found && (
        #[trigger] entries[j]) is Found ==> entries[i]->filename@ != entries[j]->filename@
}

/// The folder after the file `added` has been written into it: in the place
/// of the file that had its name, if there was one, else as a further entry.
pub open spec fn folder_with(entries: Seq<EntryRead>, added: EntryRead) -> Seq<EntryRead>
    recommends
        added is Found,
{
    if holds_name(entries, added->filename@) {
        entries.update(place_of_name(entries, added->filename@), added)
    } else {
        entries.push(added)
    }
}

/// Whether a list shows a backup under this file name.
pub open spec fn shows_name(list: Seq<BackupRecord>, name: Seq<char>) -> bool {
    exists|k: int| 0 <= k < list.len() && (#[trigger] list[k]).filename == name
}

/// Whether the folder lists a backup under this file name.
pub open spec fn is_listed(
    entries: Seq<EntryRead>,
    name: Seq<char>,
    service: CloudService,
    now: i64,
) -> bool {
    shows_name(entry_records(entries, service, now), name)
}

/// The number of backups listed from the entries before place `i`: the place
/// in the list of the backup that entry `i` stands for.
pub open spec fn listed_before_place(
    entries: Seq<EntryRead>,
    i: int,
    service: CloudService,
    now: i64,
) -> int {
    entry_records(entries.subrange(0, i), service, now).len() as int
}

/// A folder is read without failure exactly if none of its entries fails.
pub proof fn lemma_no_failure_means_none_fails(entries: Seq<EntryRead>)
    ensures
        first_failure(entries) is None <==> forall|i: int|
            0 <= i < entries.len() ==> entry_failure(#[trigger] entries[i]) is None,
    decreases entries.len(),
{
    if entries.len() > 0 {
        let head = entries.drop_last();
        lemma_no_failure_means_none_fails(head);
        if first_failure(entries) is None {
            assert forall|i: int| 0 <= i < entries.len() implies entry_failure(
                #[trigger] entries[i],
            ) is None by {
                if i < head.len() {
                    assert(head[i] == entries[i]);
                }
            }
        } else if first_failure(head) is Some {
            let i = choose|i: int| 0 <= i < head.len() && entry_failure(#[trigger] head[i]) is Some;
            assert(entries[i] == head[i]);
        } else {
            assert(entries[entries.len() - 1] == entries.last());
        }
    }
}

/// Every backup listed stands for an entry of the folder.
pub proof fn lemma_listed_backup_has_entry(
    entries: Seq<EntryRead>,
    k: int,
    service: CloudService,
    now: i64,
) -> (i: int)
    requires
        0 <= k < entry_records(entries, service, now).len(),
    ensures
        0 <= i < entries.len(),
        entry_record(entries[i], service, now) == Some(entry_records(entries, service, now)[k]),
    decreases entries.len(),
{
    let head = entries.drop_last();
    let before = entry_records(head, service, now);
    if k < before.len() {
        let i = lemma_listed_backup_has_entry(head, k, service, now);
        assert(head[i] == entries[i]);
        i
    } else {
        entries.len() - 1
    }
}

/// The backup that an entry stands for is listed, at the place that the
/// entries before it leave.
pub proof fn lemma_entry_is_listed_in_place(
    entries: Seq<EntryRead>,
    i: int,
    service: CloudService,
    now: i64,
)
    requires
        0 <= i < entries.len(),
        entry_record(entries[i], service, now) is Some,
    ensures
        0 <= listed_before_place(entries, i, service, now) < entry_records(
            entries,
            service,
            now,
        ).len(),
        entry_records(entries, service, now)[listed_before_place(entries, i, service, now)]
            == entry_record(entries[i], service, now)->Some_0,
    decreases entries.len(),
{
    let head = entries.drop_last();
    if i == entries.len() - 1 {
        assert(entries.subrange(0, i) =~= head);
    } else {
        assert(head[i] == entries[i]);
        assert(head.subrange(0, i) =~= entries.subrange(0, i));
        lemma_entry_is_listed_in_place(head, i, service, now);
    }
}

/// Putting one snapshot in the place of another changes the list at that
/// one place and nowhere else.
pub proof fn lemma_list_after_replacing(
    entries: Seq<EntryRead>,
    i: int,
    added: EntryRead,
    service: CloudService,
    now: i64,
)
    requires
        0 <= i < entries.len(),
        entry_record(entries[i], service, now) is Some,
        entry_record(added, service, now) is Some,
    ensures
        entry_records(entries.update(i, added), service, now) == entry_records(
            entries,
            service,
            now,
        ).update(
            listed_before_place(entries, i, service, now),
            entry_record(added, service, now)->Some_0,
        ),
    decreases entries.len(),
{
    let head = entries.drop_last();
    let after = entries.update(i, added);
    if i == entries.len() - 1 {
        assert(after.drop_last() =~= head);
        assert(entries.subrange(0, i) =~= head);
        assert(entry_records(after, service, now) =~= entry_records(entries, service, now).update(
            listed_before_place(entries, i, service, now),
            entry_record(added, service, now)->Some_0,
        ));
    } else {
        assert(head[i] == entries[i]);
        assert(after.drop_last() =~= head.update(i, added));
        assert(after.last() == entries.last());
        assert(head.subrange(0, i) =~= entries.subrange(0, i));
        lemma_list_after_replacing(head, i, added, service, now);
        lemma_entry_is_listed_in_place(head, i, service, now);
        assert(entry_records(after, service, now) =~= entry_records(entries, service, now).update(
            listed_before_place(entries, i, service, now),
            entry_record(added, service, now)->Some_0,
        ));
    }
}

/// Whether no two backups of a list go by the same file name.
pub open spec fn listed_once(list: Seq<BackupRecord>) -> bool {
    forall|j: int, k: int|
        0 <= j < k < list.len() ==> (#[trigger] list[j]).filename != (#[trigger] list[k]).filename
}

/// A folder whose files all have different names lists no file name twice.
pub proof fn lemma_names_are_listed_once(
    entries: Seq<EntryRead>,
    service: CloudService,
    now: i64,
)
    requires
        names_differ(entries),
    ensures
        listed_once(entry_records(entries, service, now)),
    decreases entries.len(),
{
    if entries.len() > 0 {
        let head = entries.drop_last();
        let before = entry_records(head, service, now);
        assert forall|i: int, j: int|
            0 <= i < j < head.len() && (#[trigger] head[i]) is Found && (
            #[trigger] head[j]) is Found implies head[i]->filename@ != head[j]->filename@ by {
            assert(head[i] == entries[i]);
            assert(head[j] == entries[j]);
        }
        lemma_names_are_listed_once(head, service, now);
        let list = entry_records(entries, service, now);
        assert forall|j: int, k: int| 0 <= j < k < list.len() implies (#[trigger] list[j]).filename
            != (#[trigger] list[k]).filename by {
            if k == before.len() {
                let i = lemma_listed_backup_has_entry(head, j, service, now);
                assert(head[i] == entries[i]);
                assert(entries[entries.len() - 1] == entries.last());
            } else {
                assert(list[j] == before[j]);
                assert(list[k] == before[k]);
            }
        }
    }
}

/// When a backup taken at the time that `stamp` spells has been written into
/// a folder that was read without failure, the folder lists the backups it
/// listed before and that one: under its file name exactly once, with the
/// size of its file. The list has grown by one if the name is new to the
/// folder; it is as long as before if a backup of the same second, which goes
/// by the same name, was there and has been overwritten.
pub proof fn lemma_written_backup_is_listed_once(
    entries: Seq<EntryRead>,
    added: EntryRead,
    stamp: Seq<char>,
    service: CloudService,
    now: i64,
)
    requires
        first_failure(entries) is None,
        names_differ(entries),
        added matches EntryRead::Found { filename, meta } && filename@ == backup_name(stamp)
            && meta is Ok,
    ensures
        first_failure(folder_with(entries, added)) is None,
        names_differ(folder_with(entries, added)),
        listed_once(entry_records(folder_with(entries, added), service, now)),
        entry_record(added, service, now) matches Some(r) && r.filename == backup_name(stamp)
            && r.size == added->meta->Ok_0.size && exists|k: int|
            0 <= k < entry_records(folder_with(entries, added), service, now).len()
                && #[trigger] entry_records(folder_with(entries, added), service, now)[k] == r,
        forall|name: Seq<char>|
            is_listed(folder_with(entries, added), name, service, now) <==> (is_listed(
                entries,
                name,
                service,
                now,
            ) || name == backup_name(stamp)),
        entry_records(folder_with(entries, added), service, now).len() == entry_records(
            entries,
            service,
            now,
        ).len() + if holds_name(entries, backup_name(stamp)) {
            0int
        } else {
            1int
        },
        holds_name(entries, backup_name(stamp)) <==> is_listed(
            entries,
            backup_name(stamp),
            service,
            now,
        ),
{
    let name = backup_name(stamp);
    lemma_backup_name_is_recognised(stamp);
    lemma_no_failure_means_none_fails(entries);
    let before = entry_records(entries, service, now);
    let after = folder_with(entries, added);
    let list = entry_records(after, service, now);
    let r = entry_record(added, service, now)->Some_0;
    if holds_name(entries, name) {
        let i = place_of_name(entries, name);
        assert(entry_failure(entries[i]) is None);
        let p = listed_before_place(entries, i, service, now);
        lemma_entry_is_listed_in_place(entries, i, service, now);
        lemma_list_after_replacing(entries, i, added, service, now);
        assert(list == before.update(p, r));
        assert(before[p].filename == name);
        assert forall|x: int, y: int|
            0 <= x < y < after.len() && (#[trigger] after[x]) is Found && (
            #[trigger] after[y]) is Found implies after[x]->filename@ != after[y]->filename@ by {
            assert(entries[x] is Found && entries[x]->filename@ == after[x]->filename@);
            assert(entries[y] is Found && entries[y]->filename@ == after[y]->filename@);
        }
        assert forall|x: int| 0 <= x < after.len() implies entry_failure(#[trigger] after[x])
            is None by {
            if x != i {
                assert(after[x] == entries[x]);
            }
        }
        lemma_no_failure_means_none_fails(after);
        assert(list[p] == r);
        assert forall|n: Seq<char>| is_listed(after, n, service, now) <==> (is_listed(
            entries,
            n,
            service,
            now,
        ) || n == name) by {
            if is_listed(after, n, service, now) {
                let k = choose|k: int| 0 <= k < list.len() && (#[trigger] list[k]).filename == n;
                if k != p {
                    assert(before[k].filename == n);
                }
            }
            if is_listed(entries, n, service, now) {
                let k = choose|k: int|
                    0 <= k < before.len() && (#[trigger] before[k]).filename == n;
                if k != p {
                    assert(list[k].filename == n);
                } else {
                    assert(list[p].filename == n);
                }
            }
            if n == name {
                assert(list[p].filename == n);
            }
        }
        assert(is_listed(entries, name, service, now));
    } else {
        assert(after == entries.push(added));
        assert(after.drop_last() =~= entries);
        assert(after.last() == added);
        assert(list == before.push(r));
        assert forall|x: int, y: int|
            0 <= x < y < after.len() && (#[trigger] after[x]) is Found && (
            #[trigger] after[y]) is Found implies after[x]->filename@ != after[y]->filename@ by {
            assert(after[x] == entries[x]);
            if y < entries.len() {
                assert(after[y] == entries[y]);
            }
        }
        assert(list[before.len() as int] == r);
        assert forall|n: Seq<char>| is_listed(after, n, service, now) <==> (is_listed(
            entries,
            n,
            service,
            now,
        ) || n == name) by {
            if is_listed(after, n, service, now) {
                let k = choose|k: int| 0 <= k < list.len() && (#[trigger] list[k]).filename == n;
                if k < before.len() {
                    assert(before[k].filename == n);
                }
            }
            if is_listed(entries, n, service, now) {
                let k = choose|k: int|
                    0 <= k < before.len() && (#[trigger] before[k]).filename == n;
                assert(list[k].filename == n);
            }
            if n == name {
                assert(list[before.len() as int].filename == n);
            }
        }
        if is_listed(entries, name, service, now) {
            let k = choose|k: int| 0 <= k < before.len() && (#[trigger] before[k]).filename == name;
            let i = lemma_listed_backup_has_entry(entries, k, service, now);
            assert(entries[i] is Found && entries[i]->filename@ == name);
        }
    }
    lemma_names_are_listed_once(after, service, now);
}

/// A list of the same backups in another order, such as the folder's list put
/// newest first, shows the same file names, and each once if the first did.
pub proof fn lemma_order_keeps_names(list: Seq<BackupRecord>, sorted: Seq<BackupRecord>)
    requires
        sorted.to_multiset() == list.to_multiset(),
    ensures
        sorted.len() == list.len(),
        forall|name: Seq<char>| shows_name(sorted, name) <==> shows_name(list, name),
        listed_once(list) ==> listed_once(sorted),
{
    vstd::seq_lib::to_multiset_len(list);
    vstd::seq_lib::to_multiset_len(sorted);
    assert forall|name: Seq<char>| shows_name(sorted, name) <==> shows_name(list, name) by {
        if shows_name(sorted, name) {
            let k = choose|k: int| 0 <= k < sorted.len() && (#[trigger] sorted[k]).filename == name;
            let j = lemma_same_backup_elsewhere(sorted, list, k);
            assert(list[j].filename == name);
        }
        if shows_name(list, name) {
            let k = choose|k: int| 0 <= k < list.len() && (#[trigger] list[k]).filename == name;
            let j = lemma_same_backup_elsewhere(list, sorted, k);
            assert(sorted[j].filename == name);
        }
    }
    if listed_once(list) {
        assert(list.no_duplicates());
        list.lemma_multiset_has_no_duplicates();
        sorted.lemma_multiset_has_no_duplicates_conv();
        assert forall|j: int, k: int| 0 <= j < k < sorted.len() implies (
        #[trigger] sorted[j]).filename != (#[trigger] sorted[k]).filename by {
            let a = lemma_same_backup_elsewhere(sorted, list, j);
            let b = lemma_same_backup_elsewhere(sorted, list, k);
            assert(sorted[j] != sorted[k]);
            if a < b {
                assert(list[a].filename != list[b].filename);
            } else if b < a {
                assert(list[b].filename != list[a].filename);
            }
        }
    }
}

/// A backup of one list is somewhere in every list of the same backups.
pub proof fn lemma_same_backup_elsewhere(
    from: Seq<BackupRecord>,
    to: Seq<BackupRecord>,
    k: int,
) -> (j: int)
    requires
        from.to_multiset() == to.to_multiset(),
        0 <= k < from.len(),
    ensures
        0 <= j < to.len(),
        to[j] == from[k],
{
    assert(from.contains(from[k]));
    vstd::seq_lib::to_multiset_contains(from, from[k]);
    vstd::seq_lib::to_multiset_contains(to, from[k]);
    choose|j: int| 0 <= j < to.len() && to[j] == from[k]
}

/// The list of a folder before and after a backup is taken: when a backup
/// taken at the time that `stamp` spells has been written into a folder that
/// was read without failure, then of two listings, `before` of the folder as
/// it was and `after` as it is, each in any order, the later one shows the
/// file names of the earlier one and the new name, each once. It is longer by
/// one, or as long where a backup of the same second was overwritten.
pub proof fn lemma_listing_after_backup(
    entries: Seq<EntryRead>,
    added: EntryRead,
    stamp: Seq<char>,
    service: CloudService,
    now: i64,
    before: Seq<BackupRecord>,
    after: Seq<BackupRecord>,
)
    requires
        first_failure(entries) is None,
        names_differ(entries),
        added matches EntryRead::Found { filename, meta } && filename@ == backup_name(stamp)
            && meta is Ok,
        before.to_multiset() == entry_records(entries, service, now).to_multiset(),
        after.to_multiset() == entry_records(
            folder_with(entries, added),
            service,
            now,
        ).to_multiset(),
    ensures
        forall|name: Seq<char>|
            shows_name(after, name) <==> (shows_name(before, name) || name == backup_name(stamp)),
        listed_once(after),
        after.len() == before.len() + if shows_name(before, backup_name(stamp)) {
            0int
        } else {
            1int
        },
        exists|k: int|
            0 <= k < after.len() && (#[trigger] after[k]).filename == backup_name(stamp)
                && after[k].size == added->meta->Ok_0.size,
{
    let old_list = entry_records(entries, service, now);
    let new_list = entry_records(folder_with(entries, added), service, now);
    lemma_written_backup_is_listed_once(entries, added, stamp, service, now);
    lemma_order_keeps_names(old_list, before);
    lemma_order_keeps_names(new_list, after);
    assert forall|name: Seq<char>|
        shows_name(after, name) <==> (shows_name(before, name) || name == backup_name(
            stamp,
        )) by {
        assert(is_listed(folder_with(entries, added), name, service, now) == shows_name(
            new_list,
            name,
        ));
        assert(is_listed(entries, name, service, now) == shows_name(old_list, name));
    }
    assert(is_listed(entries, backup_name(stamp), service, now) == shows_name(
        old_list,
        backup_name(stamp),
    ));
    let r = entry_record(added, service, now)->Some_0;
    let k = choose|k: int| 0 <= k < new_list.len() && #[trigger] new_list[k] == r;
    let j = lemma_same_backup_elsewhere(new_list, after, k);
    assert(after[j].filename == backup_name(stamp));
}

} // verus!
