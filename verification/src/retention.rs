//! Which local backups stay and which go when only the newest are kept.

use vstd::prelude::*;
use crate::delete::DeleteOutcome;
use crate::record::{
    listed_before, newest_first, records, sort_newest_first, BackupInfo, BackupRecord,
};

verus! {

/// The outcome of a retention sweep: the backups that stay, newest first, and
/// those to delete, oldest first.
#[derive(Debug, PartialEq, Eq)]
pub struct RetentionPlan {
    pub keep: Vec<BackupInfo>,
    pub remove: Vec<BackupInfo>,
}

/// Whether `kept` and `removed` split `backups` as retention asks: read as one
/// listing, the kept ones followed by the removed ones from the last to the
/// first, they are all the backups, newest first, and as many are kept as
/// `keep_count` allows.
pub open spec fn retention_split(
    backups: Seq<BackupRecord>,
    keep_count: nat,
    kept: Seq<BackupRecord>,
    removed: Seq<BackupRecord>,
) -> bool {
    &&& newest_first(kept + removed.reverse())
    &&& (kept + removed.reverse()).to_multiset() == backups.to_multiset()
    &&& kept.len() == if backups.len() <= keep_count {
        backups.len()
    } else {
        keep_count
    }
}

/// Decides which backups to delete so that the `keep_count` newest remain.
/// The caller deletes `remove` in order and stops at the first failure.
pub fn cleanup_old_backups(backups: Vec<BackupInfo>, keep_count: usize) -> (plan: RetentionPlan)
    ensures
        retention_split(
            records(backups@),
            keep_count as nat,
            records(plan.keep@),
            records(plan.remove@),
        ),
        plan.keep@.len() + plan.remove@.len() == backups@.len(),
        plan.remove@.len() == if backups@.len() <= keep_count {
            0
        } else {
            backups@.len() - keep_count
        },
{
    let ghost all = records(backups@);
    let mut keep = sort_newest_first(backups);
    let ghost listing = records(keep@);
    let mut remove: Vec<BackupInfo> = Vec::new();
    proof {
        vstd::seq_lib::to_multiset_len(listing);
        vstd::seq_lib::to_multiset_len(all);
        assert(records(keep@) + records(remove@).reverse() =~= listing);
    }
    while keep.len() > keep_count
        invariant
            records(keep@) + records(remove@).reverse() == listing,
            keep@.len() + remove@.len() == listing.len(),
            remove@.len() == 0 || keep@.len() >= keep_count,
        decreases keep.len(),
    {
        let ghost kept = records(keep@);
        let ghost removed = records(remove@);
        let oldest = keep.pop().unwrap();
        remove.push(oldest);
        proof {
            assert(records(keep@) =~= kept.drop_last());
            assert(records(remove@) =~= removed.push(kept.last()));
            assert(records(keep@) + records(remove@).reverse() =~= kept + removed.reverse());
        }
    }
    RetentionPlan { keep, remove }
}

/// Every backup that a retention sweep keeps is at least as new as every one
/// it removes, and the removed ones are in order from the oldest on.
pub proof fn lemma_kept_are_newest(
    backups: Seq<BackupRecord>,
    keep_count: nat,
    kept: Seq<BackupRecord>,
    removed: Seq<BackupRecord>,
)
    requires
        retention_split(backups, keep_count, kept, removed),
    ensures
        forall|i: int, j: int|
            0 <= i < kept.len() && 0 <= j < removed.len() ==> #[trigger] kept[i].created_at
                >= #[trigger] removed[j].created_at,
        forall|i: int, j: int|
            0 <= i <= j < removed.len() ==> #[trigger] removed[i].created_at
                <= #[trigger] removed[j].created_at,
        kept.len() + removed.len() == backups.len(),
        removed.len() == if backups.len() <= keep_count {
            0
        } else {
            backups.len() - keep_count
        },
{
    let listing = kept + removed.reverse();
    vstd::seq_lib::to_multiset_len(listing);
    vstd::seq_lib::to_multiset_len(backups);
    assert forall|i: int, j: int| 0 <= i < kept.len() && 0 <= j < removed.len() implies (
    #[trigger] kept[i]).created_at >= (#[trigger] removed[j]).created_at by {
        let at = kept.len() + (removed.len() - 1 - j);
        assert(listing[i] == kept[i]);
        assert(listing[at] == removed[j]);
        assert(listed_before(listing[i], listing[at]));
    }
    assert forall|i: int, j: int| 0 <= i <= j < removed.len() implies (
    #[trigger] removed[i]).created_at <= (#[trigger] removed[j]).created_at by {
        let x = kept.len() + (removed.len() - 1 - j);
        let y = kept.len() + (removed.len() - 1 - i);
        assert(listing[x] == removed[j]);
        assert(listing[y] == removed[i]);
        if i < j {
            assert(listed_before(listing[x], listing[y]));
        }
    }
}

/// Where a retention sweep stands while the backups to remove are deleted
/// one by one.
#[derive(Debug, PartialEq, Eq)]
pub enum Sweep<T> {
    /// The backup at this place among those to remove is to be deleted next.
    Remove(usize),
    /// All of them are deleted.
    Finished,
    /// A deletion ended otherwise than well; the rest was left alone.
    Failed(DeleteOutcome<T>),
}

impl View for Sweep<String> {
    type V = Sweep<Seq<char>>;

    open spec fn view(&self) -> Sweep<Seq<char>> {
        match *self {
            Sweep::Remove(at) => Sweep::Remove(at),
            Sweep::Finished => Sweep::Finished,
            Sweep::Failed(outcome) => Sweep::Failed(outcome@),
        }
    }
}

/// How a sweep of `count` backups begins.
pub open spec fn sweep_first(count: nat) -> Sweep<Seq<char>> {
    if count == 0 {
        Sweep::Finished
    } else {
        Sweep::Remove(0)
    }
}

/// How a sweep of `count` backups goes on once the deletion at place `at`
/// ended as `outcome`: with the next backup if that one was deleted and
/// there is a next, and not at all after a failure.
pub open spec fn sweep_next(
    count: nat,
    at: nat,
    outcome: DeleteOutcome<Seq<char>>,
) -> Sweep<Seq<char>> {
    match outcome {
        DeleteOutcome::Deleted => if at + 1 < count {
            Sweep::Remove((at + 1) as usize)
        } else {
            Sweep::Finished
        },
        other => Sweep::Failed(other),
    }
}

/// Begins the sweep that a plan asks for.
pub fn sweep_start(plan: &RetentionPlan) -> (sweep: Sweep<String>)
    ensures
        sweep@ == sweep_first(plan.remove@.len()),
{
    if plan.remove.len() == 0 {
        Sweep::Finished
    } else {
        Sweep::Remove(0)
    }
}

/// Goes on with the sweep once the deletion at place `at` has ended.
pub fn sweep_step(
    plan: &RetentionPlan,
    at: usize,
    outcome: DeleteOutcome<String>,
) -> (sweep: Sweep<String>)
    ensures
        sweep@ == sweep_next(plan.remove@.len(), at as nat, outcome@),
{
    match outcome {
        DeleteOutcome::Deleted => {
            if at < plan.remove.len() && at + 1 < plan.remove.len() {
                Sweep::Remove(at + 1)
            } else {
                Sweep::Finished
            }
        },
        other => Sweep::Failed(other),
    }
}

/// Where a sweep of `count` backups stands after the deletions, begun in
/// order from the first, ended as `outcomes` tell.
pub open spec fn sweep_after(
    count: nat,
    outcomes: Seq<DeleteOutcome<Seq<char>>>,
) -> Sweep<Seq<char>>
    decreases outcomes.len(),
{
    if outcomes.len() == 0 {
        sweep_first(count)
    } else {
        match sweep_after(count, outcomes.drop_last()) {
            Sweep::Remove(at) => sweep_next(count, at as nat, outcomes.last()),
            over => over,
        }
    }
}

/// The number of backups that a sweep has deleted after these outcomes.
pub open spec fn sweep_deleted(count: nat, outcomes: Seq<DeleteOutcome<Seq<char>>>) -> nat
    decreases outcomes.len(),
{
    if outcomes.len() == 0 {
        0
    } else {
        let before = sweep_deleted(count, outcomes.drop_last());
        match sweep_after(count, outcomes.drop_last()) {
            Sweep::Remove(_) if outcomes.last() is Deleted => before + 1,
            _ => before,
        }
    }
}

/// A sweep deletes the backups to remove in order and stops at the first
/// that cannot be deleted: while it runs it is at the place of the first
/// backup not yet deleted; once finished it has deleted them all; after a
/// failure the backups before the failing one are deleted and no other.
pub proof fn lemma_sweep_stops_at_first_failure(count: nat, outcomes: Seq<DeleteOutcome<Seq<char>>>)
    requires
        count <= usize::MAX,
    ensures
        sweep_deleted(count, outcomes) <= count,
        match sweep_after(count, outcomes) {
            Sweep::Remove(at) => at == sweep_deleted(count, outcomes) && at < count,
            Sweep::Finished => sweep_deleted(count, outcomes) == count,
            Sweep::Failed(outcome) => sweep_deleted(count, outcomes) < count && !(outcome
                is Deleted),
        },
    decreases outcomes.len(),
{
    if outcomes.len() > 0 {
        lemma_sweep_stops_at_first_failure(count, outcomes.drop_last());
    }
}

} // verus!
