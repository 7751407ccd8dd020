//! One backup as the rest of the library sees it, and the order listings use.

use vstd::multiset::Multiset;
use vstd::prelude::*;
use crate::service::CloudService;
use crate::text::{
    lemma_text_le_antisymmetric, lemma_text_le_reflexive, lemma_text_le_total,
    lemma_text_le_transitive, text_before_or_same, text_le,
};

verus! {

/// One snapshot of the data file.
#[derive(Debug, Clone, PartialEq, Eq)]
pub struct BackupInfo {
    /// Opaque identifier: taken from the file name for a local backup, given by
    /// the remote store for a remote one.
    pub id: String,
    /// The backend that holds the snapshot.
    pub service: CloudService,
    /// Name of the file, or of the remote record.
    pub filename: String,
    /// Length of the snapshot in bytes.
    pub size: u64,
    /// Creation time, in seconds since the Unix epoch (UTC).
    pub created_at: i64,
}

/// A `BackupInfo` as a mathematical value.
pub struct BackupRecord {
    pub id: Seq<char>,
    pub service: CloudService,
    pub filename: Seq<char>,
    pub size: u64,
    pub created_at: i64,
}

impl View for BackupInfo {
    type V = BackupRecord;

    open spec fn view(&self) -> BackupRecord {
        BackupRecord {
            id: self.id@,
            service: self.service,
            filename: self.filename@,
            size: self.size,
            created_at: self.created_at,
        }
    }
}

/// The records that a vector of backups stands for, in order.
pub open spec fn records(backups: Seq<BackupInfo>) -> Seq<BackupRecord> {
    backups.map_values(|b: BackupInfo| b@)
}

/// Whether `a` is listed no later than `b`: the newer backup first, and of two
/// created in the same second the one whose file name is later in dictionary order.
pub open spec fn listed_before(a: BackupRecord, b: BackupRecord) -> bool {
    a.created_at > b.created_at || (a.created_at == b.created_at && text_le(
        b.filename,
        a.filename,
    ))
}

/// Whether a listing is in order, newest first.
pub open spec fn newest_first(s: Seq<BackupRecord>) -> bool {
    forall|i: int, j: int| 0 <= i < j < s.len() ==> listed_before(#[trigger] s[i], #[trigger] s[j])
}

/// Of any two backups one is listed before the other.
pub proof fn lemma_listed_before_total(a: BackupRecord, b: BackupRecord)
    ensures
        listed_before(a, b) || listed_before(b, a),
{
    lemma_text_le_total(a.filename, b.filename);
}

/// The listing order is transitive.
pub proof fn lemma_listed_before_transitive(a: BackupRecord, b: BackupRecord, c: BackupRecord)
    requires
        listed_before(a, b),
        listed_before(b, c),
    ensures
        listed_before(a, c),
{
    if a.created_at == b.created_at && b.created_at == c.created_at {
        lemma_text_le_transitive(c.filename, b.filename, a.filename);
    }
}

/// A backup is listed no later than itself.
pub proof fn lemma_listed_before_reflexive(a: BackupRecord)
    ensures
        listed_before(a, a),
{
    lemma_text_le_reflexive(a.filename);
}

/// Two backups that are each listed no later than the other were created in
/// the same second under the same file name.
pub proof fn lemma_listed_before_antisymmetric(a: BackupRecord, b: BackupRecord)
    requires
        listed_before(a, b),
        listed_before(b, a),
    ensures
        a.created_at == b.created_at,
        a.filename == b.filename,
{
    lemma_text_le_antisymmetric(a.filename, b.filename);
}

/// The order of a listing is settled by the backups listed: two listings of
/// the same backups that are both newest first show, at every place, backups
/// of the same time and file name.
pub proof fn lemma_listing_order_is_settled(a: Seq<BackupRecord>, b: Seq<BackupRecord>)
    requires
        newest_first(a),
        newest_first(b),
        a.to_multiset() == b.to_multiset(),
    ensures
        a.len() == b.len(),
        forall|i: int|
            0 <= i < a.len() ==> (#[trigger] a[i]).created_at == b[i].created_at && a[i].filename
                == b[i].filename,
    decreases a.len(),
{
    vstd::seq_lib::to_multiset_len(a);
    vstd::seq_lib::to_multiset_len(b);
    if a.len() > 0 {
        let top = a[0];
        // The first of `a` is somewhere in `b`, and the first of `b` somewhere in `a`.
        assert(a.contains(top));
        vstd::seq_lib::to_multiset_contains(a, top);
        vstd::seq_lib::to_multiset_contains(b, top);
        let j = choose|j: int| 0 <= j < b.len() && b[j] == top;
        assert(b.contains(b[0]));
        vstd::seq_lib::to_multiset_contains(b, b[0]);
        vstd::seq_lib::to_multiset_contains(a, b[0]);
        let k = choose|k: int| 0 <= k < a.len() && a[k] == b[0];
        if k > 0 {
            assert(listed_before(a[0], a[k]));
        } else {
            lemma_listed_before_reflexive(top);
        }
        if j > 0 {
            assert(listed_before(b[0], b[j]));
        } else {
            lemma_listed_before_reflexive(top);
        }
        lemma_listed_before_antisymmetric(top, b[0]);
        // Everything in `b` up to that place is of the same time and name.
        assert forall|i: int| 0 <= i <= j implies (#[trigger] b[i]).created_at == top.created_at
            && b[i].filename == top.filename by {
            if 0 < i {
                assert(listed_before(b[0], b[i]));
            } else {
                lemma_listed_before_reflexive(b[0]);
            }
            if i < j {
                assert(listed_before(b[i], b[j]));
            } else {
                lemma_listed_before_reflexive(top);
            }
            lemma_listed_before_transitive(top, b[0], b[i]);
            lemma_listed_before_antisymmetric(top, b[i]);
        }
        // Without those two, the listings are again listings of the same backups.
        let rest_a = a.remove(0);
        let rest_b = b.remove(j);
        vstd::seq_lib::to_multiset_remove(a, 0);
        vstd::seq_lib::to_multiset_remove(b, j);
        assert forall|x: int, y: int| 0 <= x < y < rest_a.len() implies listed_before(
            #[trigger] rest_a[x],
            #[trigger] rest_a[y],
        ) by {
            assert(listed_before(a[x + 1], a[y + 1]));
        }
        assert forall|x: int, y: int| 0 <= x < y < rest_b.len() implies listed_before(
            #[trigger] rest_b[x],
            #[trigger] rest_b[y],
        ) by {
            let from = if x < j { x } else { x + 1 };
            let to = if y < j { y } else { y + 1 };
            assert(listed_before(b[from], b[to]));
        }
        lemma_listing_order_is_settled(rest_a, rest_b);
        assert forall|i: int| 0 <= i < a.len() implies (#[trigger] a[i]).created_at
            == b[i].created_at && a[i].filename == b[i].filename by {
            if i > 0 {
                assert(a[i] == rest_a[i - 1]);
                if i - 1 < j {
                    assert(rest_b[i - 1] == b[i - 1]);
                    assert(b[i - 1].created_at == top.created_at);
                    assert(b[i].created_at == top.created_at);
                } else {
                    assert(rest_b[i - 1] == b[i]);
                }
            }
        }
    }
}

/// In a listing that is newest first, a backup created later stands before
/// every backup created earlier, and creation times never rise.
pub proof fn lemma_newest_first_by_time(s: Seq<BackupRecord>)
    requires
        newest_first(s),
    ensures
        forall|i: int, j: int|
            0 <= i < j < s.len() ==> (#[trigger] s[i]).created_at >= (#[trigger] s[j]).created_at,
        forall|i: int, j: int|
            0 <= i < s.len() && 0 <= j < s.len() && (#[trigger] s[i]).created_at > (
            #[trigger] s[j]).created_at ==> i < j,
{
    assert forall|i: int, j: int|
        0 <= i < s.len() && 0 <= j < s.len() && (#[trigger] s[i]).created_at > (
        #[trigger] s[j]).created_at implies i < j by {
        if j < i {
            assert(listed_before(s[j], s[i]));
        }
    }
}

/// Whether `a` is listed no later than `b`.
pub fn is_listed_before(a: &BackupInfo, b: &BackupInfo) -> (r: bool)
    ensures
        r == listed_before(a@, b@),
{
    if a.created_at > b.created_at {
        true
    } else if a.created_at == b.created_at {
        text_before_or_same(b.filename.as_str(), a.filename.as_str())
    } else {
        false
    }
}

/// Puts backups in listing order, newest first.
pub fn sort_newest_first(backups: Vec<BackupInfo>) -> (sorted: Vec<BackupInfo>)
    ensures
        newest_first(records(sorted@)),
        records(sorted@).to_multiset() == records(backups@).to_multiset(),
        sorted@.len() == backups@.len(),
{
    let ghost all = records(backups@);
    let mut rest = backups;
    let mut sorted: Vec<BackupInfo> = Vec::new();
    proof {
        assert(records(sorted@) =~= Seq::<BackupRecord>::empty());
        assert(records(sorted@).to_multiset() =~= Multiset::<BackupRecord>::empty()) by {
            broadcast use vstd::seq_lib::group_to_multiset_ensures;
        }
    }
    while rest.len() > 0
        invariant
            newest_first(records(sorted@)),
            records(sorted@).to_multiset().add(records(rest@).to_multiset()) == all.to_multiset(),
        decreases rest.len(),
    {
        let ghost before_rest = records(rest@);
        let ghost before_sorted = records(sorted@);
        let item = rest.pop().unwrap();
        proof {
            assert(before_rest =~= records(rest@).push(item@));
            vstd::seq_lib::to_multiset_build(records(rest@), item@);
        }
        // The first place whose backup is listed after `item`.
        let mut at: usize = 0;
        while at < sorted.len() && is_listed_before(&sorted[at], &item)
            invariant
                at <= sorted.len(),
                forall|k: int| 0 <= k < at ==> listed_before(#[trigger] records(sorted@)[k], item@),
            decreases sorted.len() - at,
        {
            at = at + 1;
        }
        proof {
            let s = before_sorted;
            let t = s.insert(at as int, item@);
            assert forall|i: int, j: int| 0 <= i < j < t.len() implies listed_before(
                #[trigger] t[i],
                #[trigger] t[j],
            ) by {
                if j == at {
                    assert(t[i] == s[i]);
                } else if i == at {
                    assert(t[j] == s[j - 1]);
                    lemma_listed_before_total(s[at as int], item@);
                    if j - 1 > at {
                        lemma_listed_before_transitive(item@, s[at as int], s[j - 1]);
                    }
                } else {
                    let x = if i < at { i } else { i - 1 };
                    let y = if j < at { j } else { j - 1 };
                    assert(t[i] == s[x]);
                    assert(t[j] == s[y]);
                }
            }
            vstd::seq_lib::to_multiset_insert(s, at as int, item@);
        }
        sorted.insert(at, item);
        proof {
            assert(records(sorted@) =~= before_sorted.insert(at as int, item@));
            assert(records(sorted@).to_multiset().add(records(rest@).to_multiset())
                =~= before_sorted.to_multiset().add(before_rest.to_multiset()));
        }
    }
    proof {
        assert(records(rest@) =~= Seq::<BackupRecord>::empty());
        broadcast use vstd::seq_lib::group_to_multiset_ensures;
        assert(records(rest@).to_multiset() =~= Multiset::<BackupRecord>::empty());
        assert(records(sorted@).to_multiset() =~= all.to_multiset());
        vstd::seq_lib::to_multiset_len(records(sorted@));
        vstd::seq_lib::to_multiset_len(all);
    }
    sorted
}

} // verus!
