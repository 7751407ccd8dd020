//! Deleting a backup: the decisions, and what they guarantee of the folder.

use vstd::prelude::*;
use vstd::string::*;
use crate::directory::{dir_result, BackupDir, BackupDirPath};
use crate::error::{result_view, BackupError, ErrorKind, Failure};
use crate::host::Reply;
use crate::service::CloudService;
use crate::text::joined;

verus! {

/// The work that deleting a backup asks of its caller.
#[derive(Debug, Clone, Copy, PartialEq, Eq, Structural)]
pub enum DeleteAction {
    /// Tell whether the backup folder holds a file of the given name.
    ProbeBackup,
    /// Delete that file.
    RemoveBackup,
    /// Delete the record of the given id in the remote store.
    DeleteRemote,
    /// Nothing: the deletion is over.
    Finish,
}

/// How a deletion ended.
#[derive(Debug, PartialEq, Eq)]
pub enum DeleteOutcome<T> {
    Deleted,
    /// The folder holds no such file.
    NotFound,
    /// The backend has no folder, for the reason given.
    Unavailable(ErrorKind, T),
    /// The file is there and could not be deleted.
    RemoveFailed(T),
    /// The remote store refused, with this message.
    RemoteFailed(T),
}

/// Where a deletion stands.
#[derive(Debug, PartialEq, Eq)]
pub enum DeleteState<T> {
    Probing,
    Removing,
    RemovingRemote,
    Done(DeleteOutcome<T>),
}

impl View for DeleteOutcome<String> {
    type V = DeleteOutcome<Seq<char>>;

    open spec fn view(&self) -> DeleteOutcome<Seq<char>> {
        match *self {
            DeleteOutcome::Deleted => DeleteOutcome::Deleted,
            DeleteOutcome::NotFound => DeleteOutcome::NotFound,
            DeleteOutcome::Unavailable(kind, why) => DeleteOutcome::Unavailable(kind, why@),
            DeleteOutcome::RemoveFailed(why) => DeleteOutcome::RemoveFailed(why@),
            DeleteOutcome::RemoteFailed(why) => DeleteOutcome::RemoteFailed(why@),
        }
    }
}

impl View for DeleteState<String> {
    type V = DeleteState<Seq<char>>;

    open spec fn view(&self) -> DeleteState<Seq<char>> {
        match *self {
            DeleteState::Probing => DeleteState::Probing,
            DeleteState::Removing => DeleteState::Removing,
            DeleteState::RemovingRemote => DeleteState::RemovingRemote,
            DeleteState::Done(outcome) => DeleteState::Done(outcome@),
        }
    }
}

/// The state a deletion starts in: the remote store is asked directly for the
/// synced backend; else the file is looked for in the backend's folder, if it
/// has one.
pub open spec fn delete_start(
    service: CloudService,
    folder: Result<BackupDirPath, Failure>,
) -> DeleteState<Seq<char>> {
    if service == CloudService::Icloud {
        DeleteState::RemovingRemote
    } else {
        match folder {
            Err(f) => DeleteState::Done(DeleteOutcome::Unavailable(f.kind, f.message)),
            Ok(_) => DeleteState::Probing,
        }
    }
}

/// The action pending in a state.
pub open spec fn delete_pending(state: DeleteState<Seq<char>>) -> DeleteAction {
    match state {
        DeleteState::Probing => DeleteAction::ProbeBackup,
        DeleteState::Removing => DeleteAction::RemoveBackup,
        DeleteState::RemovingRemote => DeleteAction::DeleteRemote,
        DeleteState::Done(_) => DeleteAction::Finish,
    }
}

/// The state after a reply. A reply that does not answer the pending action
/// changes nothing.
pub open spec fn delete_next(
    state: DeleteState<Seq<char>>,
    reply: Reply<Seq<char>>,
) -> DeleteState<Seq<char>> {
    match (state, reply) {
        (DeleteState::Probing, Reply::Probed(true)) => DeleteState::Removing,
        (DeleteState::Probing, Reply::Probed(false)) => DeleteState::Done(DeleteOutcome::NotFound),
        (DeleteState::Removing, Reply::Finished(Ok(_))) => DeleteState::Done(
            DeleteOutcome::Deleted,
        ),
        (DeleteState::Removing, Reply::Finished(Err(why))) => DeleteState::Done(
            DeleteOutcome::RemoveFailed(why),
        ),
        (DeleteState::RemovingRemote, Reply::Finished(Ok(_))) => DeleteState::Done(
            DeleteOutcome::Deleted,
        ),
        (DeleteState::RemovingRemote, Reply::Finished(Err(why))) => DeleteState::Done(
            DeleteOutcome::RemoteFailed(why),
        ),
        (state, _) => state,
    }
}

/// What the caller is told when a deletion is over.
pub open spec fn delete_outcome_result(outcome: DeleteOutcome<Seq<char>>) -> Result<(), Failure> {
    match outcome {
        DeleteOutcome::Deleted => Ok(()),
        DeleteOutcome::NotFound => Err(
            Failure { kind: ErrorKind::NotFound, message: "Backup file not found"@ },
        ),
        DeleteOutcome::Unavailable(kind, why) => Err(Failure { kind, message: why }),
        DeleteOutcome::RemoveFailed(why) => Err(
            Failure { kind: ErrorKind::IoFailure, message: "Failed to delete backup: "@ + why },
        ),
        DeleteOutcome::RemoteFailed(why) => Err(
            Failure { kind: ErrorKind::BackendUnavailable, message: why },
        ),
    }
}

/// Starts the deletion of a backup kept by `service`, whose folder is `folder`.
pub fn delete_backup(
    service: CloudService,
    folder: &Result<BackupDir, BackupError>,
) -> (state: DeleteState<String>)
    ensures
        state@ == delete_start(service, dir_result(*folder)),
{
    if service == CloudService::Icloud {
        DeleteState::RemovingRemote
    } else {
        match folder {
            Err(e) => DeleteState::Done(DeleteOutcome::Unavailable(e.kind, e.message.clone())),
            Ok(_) => DeleteState::Probing,
        }
    }
}

/// The action the deletion waits for.
pub fn delete_action(state: &DeleteState<String>) -> (action: DeleteAction)
    ensures
        action == delete_pending(state@),
{
    match state {
        DeleteState::Probing => DeleteAction::ProbeBackup,
        DeleteState::Removing => DeleteAction::RemoveBackup,
        DeleteState::RemovingRemote => DeleteAction::DeleteRemote,
        DeleteState::Done(_) => DeleteAction::Finish,
    }
}

/// Takes the caller's report on the pending action and moves on.
pub fn delete_step(state: DeleteState<String>, reply: Reply<String>) -> (next: DeleteState<String>)
    ensures
        next@ == delete_next(state@, reply@),
{
    match (state, reply) {
        (DeleteState::Probing, Reply::Probed(found)) => {
            if found {
                DeleteState::Removing
            } else {
                DeleteState::Done(DeleteOutcome::NotFound)
            }
        },
        (DeleteState::Removing, Reply::Finished(r)) => match r {
            Ok(_) => DeleteState::Done(DeleteOutcome::Deleted),
            Err(why) => DeleteState::Done(DeleteOutcome::RemoveFailed(why)),
        },
        (DeleteState::RemovingRemote, Reply::Finished(r)) => match r {
            Ok(_) => DeleteState::Done(DeleteOutcome::Deleted),
            Err(why) => DeleteState::Done(DeleteOutcome::RemoteFailed(why)),
        },
        (state, _) => state,
    }
}

/// The result to hand to the user once the deletion is over.
pub fn delete_result(outcome: DeleteOutcome<String>) -> (r: Result<(), BackupError>)
    ensures
        result_view(r) == delete_outcome_result(outcome@),
{
    match outcome {
        DeleteOutcome::Deleted => Ok(()),
        DeleteOutcome::NotFound => Err(
            BackupError::new(ErrorKind::NotFound, String::from_str("Backup file not found")),
        ),
        DeleteOutcome::Unavailable(kind, why) => Err(BackupError::new(kind, why)),
        DeleteOutcome::RemoveFailed(why) => Err(
            BackupError::new(ErrorKind::IoFailure, joined("Failed to delete backup: ", why.as_str())),
        ),
        DeleteOutcome::RemoteFailed(why) => Err(
            BackupError::new(ErrorKind::BackendUnavailable, why),
        ),
    }
}

/// Whether `after` can be the names in the backup folder once `action` was
/// carried out for the file `name` on a folder holding `before` and reported
/// as `reply`: a probe tells the truth, and a deletion that succeeded took
/// that name away and no other.
pub open spec fn delete_may_follow(
    action: DeleteAction,
    reply: Reply<Seq<char>>,
    name: Seq<char>,
    before: Set<Seq<char>>,
    after: Set<Seq<char>>,
) -> bool {
    match (action, reply) {
        (DeleteAction::ProbeBackup, Reply::Probed(found)) => after == before && found
            == before.contains(name),
        (DeleteAction::RemoveBackup, Reply::Finished(r)) => after == if r is Ok {
            before.remove(name)
        } else {
            before
        },
        _ => false,
    }
}

/// One step of a run: what the caller reported and the names in the folder then.
pub struct DeleteMoment {
    pub reply: Reply<Seq<char>>,
    pub names: Set<Seq<char>>,
}

/// Whether `steps` is a run of deleting the file `name` from `state` on a
/// folder holding `names`.
pub open spec fn is_delete_run(
    state: DeleteState<Seq<char>>,
    name: Seq<char>,
    names: Set<Seq<char>>,
    steps: Seq<DeleteMoment>,
) -> bool
    decreases steps.len(),
{
    if steps.len() == 0 {
        true
    } else {
        &&& delete_may_follow(delete_pending(state), steps[0].reply, name, names, steps[0].names)
        &&& is_delete_run(delete_next(state, steps[0].reply), name, steps[0].names, steps.skip(1))
    }
}

/// The state a run ends in.
pub open spec fn delete_run_end(
    state: DeleteState<Seq<char>>,
    steps: Seq<DeleteMoment>,
) -> DeleteState<Seq<char>>
    decreases steps.len(),
{
    if steps.len() == 0 {
        state
    } else {
        delete_run_end(delete_next(state, steps[0].reply), steps.skip(1))
    }
}

/// The names in the folder at the end of a run.
pub open spec fn delete_run_names(
    names: Set<Seq<char>>,
    steps: Seq<DeleteMoment>,
) -> Set<Seq<char>> {
    if steps.len() == 0 {
        names
    } else {
        steps.last().names
    }
}

/// What holds of the folder in every state of a deletion that began on `first`.
pub open spec fn folder_is_true(
    state: DeleteState<Seq<char>>,
    name: Seq<char>,
    first: Set<Seq<char>>,
    now: Set<Seq<char>>,
) -> bool {
    match state {
        DeleteState::Probing => now == first,
        DeleteState::Removing => now == first && first.contains(name),
        DeleteState::Done(DeleteOutcome::Deleted) => now == first.remove(name) && first.contains(
            name,
        ),
        DeleteState::Done(DeleteOutcome::NotFound) => now == first && !first.contains(name),
        DeleteState::Done(DeleteOutcome::RemoveFailed(_)) => now == first && first.contains(name),
        _ => false,
    }
}

/// A run keeps what `folder_is_true` says.
pub proof fn lemma_delete_run_is_true(
    state: DeleteState<Seq<char>>,
    name: Seq<char>,
    first: Set<Seq<char>>,
    names: Set<Seq<char>>,
    steps: Seq<DeleteMoment>,
)
    requires
        is_delete_run(state, name, names, steps),
        folder_is_true(state, name, first, names),
    ensures
        folder_is_true(delete_run_end(state, steps), name, first, delete_run_names(names, steps)),
    decreases steps.len(),
{
    if steps.len() > 0 {
        let next = delete_next(state, steps[0].reply);
        let rest = steps.skip(1);
        lemma_delete_run_is_true(next, name, first, steps[0].names, rest);
        if rest.len() > 0 {
            assert(rest.last() == steps.last());
        }
    }
}

/// A deletion that reports success took the file out of the folder and left
/// every other file; one that reports `NotFound` met a folder without the
/// file; and no deletion touches another file.
pub proof fn lemma_delete_removes_one_file(
    name: Seq<char>,
    names: Set<Seq<char>>,
    steps: Seq<DeleteMoment>,
)
    requires
        is_delete_run(DeleteState::Probing, name, names, steps),
    ensures
        ({
            let end = delete_run_end(DeleteState::Probing, steps);
            let after = delete_run_names(names, steps);
            &&& end == DeleteState::<Seq<char>>::Done(DeleteOutcome::Deleted) ==> after
                == names.remove(name)
            &&& end == DeleteState::<Seq<char>>::Done(DeleteOutcome::NotFound) ==> !names.contains(
                name,
            )
            &&& forall|other: Seq<char>|
                other != name ==> after.contains(other) == names.contains(other)
        }),
{
    lemma_delete_run_is_true(DeleteState::Probing, name, names, names, steps);
}

/// After a deletion that succeeded, a second deletion of the same name can
/// only end in `NotFound`, and leaves the folder as it is.
pub proof fn lemma_second_delete_is_not_found(
    name: Seq<char>,
    names: Set<Seq<char>>,
    first: Seq<DeleteMoment>,
    second: Seq<DeleteMoment>,
)
    requires
        is_delete_run(DeleteState::Probing, name, names, first),
        delete_run_end(DeleteState::Probing, first) == DeleteState::<Seq<char>>::Done(
            DeleteOutcome::Deleted,
        ),
        is_delete_run(DeleteState::Probing, name, delete_run_names(names, first), second),
        delete_run_end(DeleteState::Probing, second) is Done,
    ensures
        delete_run_end(DeleteState::Probing, second) == DeleteState::<Seq<char>>::Done(
            DeleteOutcome::NotFound,
        ),
        delete_outcome_result(DeleteOutcome::NotFound) is Err,
        delete_outcome_result(DeleteOutcome::NotFound)->Err_0.kind == ErrorKind::NotFound,
        delete_run_names(delete_run_names(names, first), second) == names.remove(name),
{
    lemma_delete_run_is_true(DeleteState::Probing, name, names, names, first);
    let left = delete_run_names(names, first);
    assert(!left.contains(name));
    lemma_delete_run_is_true(DeleteState::Probing, name, left, left, second);
}

} // verus!
