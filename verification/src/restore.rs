//! Restoring a backup over the live data file without ever losing the data
//! that was there: the decisions, step by step. The caller does the file work
//! and reports back.

use vstd::prelude::*;
use vstd::string::*;
use crate::error::{result_view, BackupError, ErrorKind, Failure};
use crate::host::Reply;
use crate::service::CloudService;
use crate::text::joined;

verus! {

/// The file work a restore asks of its caller.
#[derive(Debug, Clone, Copy, PartialEq, Eq, Structural)]
pub enum RestoreAction {
    /// Tell whether the snapshot is in the backup folder.
    ProbeSnapshot,
    /// Fetch the snapshot from the remote store into the backup folder.
    Download,
    /// Tell whether the live data file exists.
    ProbeLive,
    /// Copy the live data file to the checkpoint beside it.
    WriteCheckpoint,
    /// Copy the snapshot over the live data file.
    Apply,
    /// Copy the checkpoint back over the live data file.
    RollBack,
    /// Delete the checkpoint.
    RemoveCheckpoint,
    /// Nothing: the restore is over.
    Finish,
}

/// How a restore ended.
#[derive(Debug, PartialEq, Eq)]
pub enum RestoreOutcome<T> {
    /// The live data file now holds the snapshot.
    Restored,
    /// There is no such snapshot.
    SnapshotMissing,
    /// The snapshot could not be fetched from the remote store.
    DownloadFailed(T),
    /// The live data file could not be copied aside; nothing was changed.
    CheckpointFailed(T),
    /// Copying the snapshot failed; what could be put back was put back.
    ApplyFailed(T),
    /// Copying the snapshot failed and so did putting the old data back, for
    /// the second reason given. The old data is still in the checkpoint.
    RollbackFailed(T, T),
}

/// Where a restore stands.
#[derive(Debug, PartialEq, Eq)]
pub enum RestoreState<T> {
    /// Looking for the snapshot in the backup folder.
    Locating(CloudService),
    /// Fetching the snapshot from the remote store.
    Downloading,
    /// Making sure the fetched snapshot is there.
    Verifying,
    /// Finding out whether there is live data to protect.
    CheckingLive,
    /// Copying the live data aside.
    Checkpointing,
    /// Copying the snapshot over the live data; the flag tells whether a
    /// checkpoint was taken.
    Applying(bool),
    /// Deleting the checkpoint after the snapshot is in place.
    Committing,
    /// Putting the old data back after copying the snapshot failed for the
    /// reason given.
    RollingBack(T),
    /// Deleting the checkpoint after the old data is back in place.
    Discarding(T),
    /// Over.
    Done(RestoreOutcome<T>),
}

impl View for RestoreOutcome<String> {
    type V = RestoreOutcome<Seq<char>>;

    open spec fn view(&self) -> RestoreOutcome<Seq<char>> {
        match *self {
            RestoreOutcome::Restored => RestoreOutcome::Restored,
            RestoreOutcome::SnapshotMissing => RestoreOutcome::SnapshotMissing,
            RestoreOutcome::DownloadFailed(why) => RestoreOutcome::DownloadFailed(why@),
            RestoreOutcome::CheckpointFailed(why) => RestoreOutcome::CheckpointFailed(why@),
            RestoreOutcome::ApplyFailed(why) => RestoreOutcome::ApplyFailed(why@),
            RestoreOutcome::RollbackFailed(why, back) => RestoreOutcome::RollbackFailed(why@, back@),
        }
    }
}

impl View for RestoreState<String> {
    type V = RestoreState<Seq<char>>;

    open spec fn view(&self) -> RestoreState<Seq<char>> {
        match *self {
            RestoreState::Locating(service) => RestoreState::Locating(service),
            RestoreState::Downloading => RestoreState::Downloading,
            RestoreState::Verifying => RestoreState::Verifying,
            RestoreState::CheckingLive => RestoreState::CheckingLive,
            RestoreState::Checkpointing => RestoreState::Checkpointing,
            RestoreState::Applying(checkpointed) => RestoreState::Applying(checkpointed),
            RestoreState::Committing => RestoreState::Committing,
            RestoreState::RollingBack(why) => RestoreState::RollingBack(why@),
            RestoreState::Discarding(why) => RestoreState::Discarding(why@),
            RestoreState::Done(outcome) => RestoreState::Done(outcome@),
        }
    }
}

/// The action a restore waits for in a state.
pub open spec fn pending(state: RestoreState<Seq<char>>) -> RestoreAction {
    match state {
        RestoreState::Locating(_) => RestoreAction::ProbeSnapshot,
        RestoreState::Downloading => RestoreAction::Download,
        RestoreState::Verifying => RestoreAction::ProbeSnapshot,
        RestoreState::CheckingLive => RestoreAction::ProbeLive,
        RestoreState::Checkpointing => RestoreAction::WriteCheckpoint,
        RestoreState::Applying(_) => RestoreAction::Apply,
        RestoreState::Committing => RestoreAction::RemoveCheckpoint,
        RestoreState::RollingBack(_) => RestoreAction::RollBack,
        RestoreState::Discarding(_) => RestoreAction::RemoveCheckpoint,
        RestoreState::Done(_) => RestoreAction::Finish,
    }
}

/// Whether an action is a question about a file rather than work on one.
pub open spec fn is_probe(action: RestoreAction) -> bool {
    action == RestoreAction::ProbeSnapshot || action == RestoreAction::ProbeLive
}

/// Whether a reply is of the kind the action calls for.
pub open spec fn answers(action: RestoreAction, reply: Reply<Seq<char>>) -> bool {
    match reply {
        Reply::Probed(_) => is_probe(action),
        Reply::Finished(_) => !is_probe(action) && action != RestoreAction::Finish,
        _ => false,
    }
}

/// The state after a reply. A reply that does not answer the pending action
/// changes nothing.
///
/// The snapshot is fetched only for the synced backend and only when it is
/// not in the backup folder. The live data is copied aside before the snapshot
/// is copied over it. If that copy fails the checkpoint is copied back, and
/// the checkpoint is deleted only once the live data file is whole again:
/// holding the snapshot, or the old data.
pub open spec fn restore_next(
    state: RestoreState<Seq<char>>,
    reply: Reply<Seq<char>>,
) -> RestoreState<Seq<char>> {
    match (state, reply) {
        (RestoreState::Locating(_), Reply::Probed(true)) => RestoreState::CheckingLive,
        (RestoreState::Locating(service), Reply::Probed(false)) => if service
            == CloudService::Icloud {
            RestoreState::Downloading
        } else {
            RestoreState::Done(RestoreOutcome::SnapshotMissing)
        },
        (RestoreState::Downloading, Reply::Finished(Ok(_))) => RestoreState::Verifying,
        (RestoreState::Downloading, Reply::Finished(Err(why))) => RestoreState::Done(
            RestoreOutcome::DownloadFailed(why),
        ),
        (RestoreState::Verifying, Reply::Probed(true)) => RestoreState::CheckingLive,
        (RestoreState::Verifying, Reply::Probed(false)) => RestoreState::Done(
            RestoreOutcome::SnapshotMissing,
        ),
        (RestoreState::CheckingLive, Reply::Probed(true)) => RestoreState::Checkpointing,
        (RestoreState::CheckingLive, Reply::Probed(false)) => RestoreState::Applying(false),
        (RestoreState::Checkpointing, Reply::Finished(Ok(_))) => RestoreState::Applying(true),
        (RestoreState::Checkpointing, Reply::Finished(Err(why))) => RestoreState::Done(
            RestoreOutcome::CheckpointFailed(why),
        ),
        (RestoreState::Applying(_), Reply::Finished(Ok(_))) => RestoreState::Committing,
        (RestoreState::Applying(checkpointed), Reply::Finished(Err(why))) => if checkpointed {
            RestoreState::RollingBack(why)
        } else {
            RestoreState::Done(RestoreOutcome::ApplyFailed(why))
        },
        (RestoreState::Committing, Reply::Finished(_)) => RestoreState::Done(
            RestoreOutcome::Restored,
        ),
        (RestoreState::RollingBack(why), Reply::Finished(Ok(_))) => RestoreState::Discarding(why),
        (RestoreState::RollingBack(why), Reply::Finished(Err(back))) => RestoreState::Done(
            RestoreOutcome::RollbackFailed(why, back),
        ),
        (RestoreState::Discarding(why), Reply::Finished(_)) => RestoreState::Done(
            RestoreOutcome::ApplyFailed(why),
        ),
        (state, _) => state,
    }
}

/// What the caller is told when a restore is over.
pub open spec fn outcome_result(outcome: RestoreOutcome<Seq<char>>) -> Result<(), Failure> {
    match outcome {
        RestoreOutcome::Restored => Ok(()),
        RestoreOutcome::SnapshotMissing => Err(
            Failure { kind: ErrorKind::NotFound, message: "Backup file not found"@ },
        ),
        RestoreOutcome::DownloadFailed(why) => Err(
            Failure { kind: ErrorKind::BackendUnavailable, message: why },
        ),
        RestoreOutcome::CheckpointFailed(why) => Err(
            Failure { kind: ErrorKind::IoFailure, message: "Failed to create temp backup: "@ + why },
        ),
        RestoreOutcome::ApplyFailed(why) => Err(
            Failure { kind: ErrorKind::IoFailure, message: "Failed to restore backup: "@ + why },
        ),
        RestoreOutcome::RollbackFailed(why, back) => Err(
            Failure {
                kind: ErrorKind::IoFailure,
                message: "Failed to restore backup: "@ + why + "; rollback failed: "@ + back,
            },
        ),
    }
}

/// Starts the restore of a snapshot kept by `service`.
pub fn restore_backup(service: CloudService) -> (state: RestoreState<String>)
    ensures
        state@ == RestoreState::<Seq<char>>::Locating(service),
{
    RestoreState::Locating(service)
}

/// The action the restore waits for.
pub fn restore_action(state: &RestoreState<String>) -> (action: RestoreAction)
    ensures
        action == pending(state@),
{
    match state {
        RestoreState::Locating(_) => RestoreAction::ProbeSnapshot,
        RestoreState::Downloading => RestoreAction::Download,
        RestoreState::Verifying => RestoreAction::ProbeSnapshot,
        RestoreState::CheckingLive => RestoreAction::ProbeLive,
        RestoreState::Checkpointing => RestoreAction::WriteCheckpoint,
        RestoreState::Applying(_) => RestoreAction::Apply,
        RestoreState::Committing => RestoreAction::RemoveCheckpoint,
        RestoreState::RollingBack(_) => RestoreAction::RollBack,
        RestoreState::Discarding(_) => RestoreAction::RemoveCheckpoint,
        RestoreState::Done(_) => RestoreAction::Finish,
    }
}

/// Takes the caller's report on the pending action and moves on.
pub fn restore_step(
    state: RestoreState<String>,
    reply: Reply<String>,
) -> (next: RestoreState<String>)
    ensures
        next@ == restore_next(state@, reply@),
{
    match (state, reply) {
        (RestoreState::Locating(service), Reply::Probed(found)) => {
            if found {
                RestoreState::CheckingLive
            } else if service == CloudService::Icloud {
                RestoreState::Downloading
            } else {
                RestoreState::Done(RestoreOutcome::SnapshotMissing)
            }
        },
        (RestoreState::Downloading, Reply::Finished(r)) => match r {
            Ok(_) => RestoreState::Verifying,
            Err(why) => RestoreState::Done(RestoreOutcome::DownloadFailed(why)),
        },
        (RestoreState::Verifying, Reply::Probed(found)) => {
            if found {
                RestoreState::CheckingLive
            } else {
                RestoreState::Done(RestoreOutcome::SnapshotMissing)
            }
        },
        (RestoreState::CheckingLive, Reply::Probed(found)) => {
            if found {
                RestoreState::Checkpointing
            } else {
                RestoreState::Applying(false)
            }
        },
        (RestoreState::Checkpointing, Reply::Finished(r)) => match r {
            Ok(_) => RestoreState::Applying(true),
            Err(why) => RestoreState::Done(RestoreOutcome::CheckpointFailed(why)),
        },
        (RestoreState::Applying(checkpointed), Reply::Finished(r)) => match r {
            Ok(_) => RestoreState::Committing,
            Err(why) => {
                if checkpointed {
                    RestoreState::RollingBack(why)
                } else {
                    RestoreState::Done(RestoreOutcome::ApplyFailed(why))
                }
            },
        },
        (RestoreState::Committing, Reply::Finished(_)) => RestoreState::Done(
            RestoreOutcome::Restored,
        ),
        (RestoreState::RollingBack(why), Reply::Finished(r)) => match r {
            Ok(_) => RestoreState::Discarding(why),
            Err(back) => RestoreState::Done(RestoreOutcome::RollbackFailed(why, back)),
        },
        (RestoreState::Discarding(why), Reply::Finished(_)) => RestoreState::Done(
            RestoreOutcome::ApplyFailed(why),
        ),
        (state, _) => state,
    }
}

/// The result to hand to the user once the restore is over.
pub fn restore_result(outcome: &RestoreOutcome<String>) -> (r: Result<(), BackupError>)
    ensures
        result_view(r) == outcome_result(outcome@),
{
    match outcome {
        RestoreOutcome::Restored => Ok(()),
        RestoreOutcome::SnapshotMissing => Err(
            BackupError::new(ErrorKind::NotFound, String::from_str("Backup file not found")),
        ),
        RestoreOutcome::DownloadFailed(why) => Err(
            BackupError::new(ErrorKind::BackendUnavailable, why.clone()),
        ),
        RestoreOutcome::CheckpointFailed(why) => Err(
            BackupError::new(
                ErrorKind::IoFailure,
                joined("Failed to create temp backup: ", why.as_str()),
            ),
        ),
        RestoreOutcome::ApplyFailed(why) => Err(
            BackupError::new(ErrorKind::IoFailure, joined("Failed to restore backup: ", why.as_str())),
        ),
        RestoreOutcome::RollbackFailed(why, back) => {
            let head = joined("Failed to restore backup: ", why.as_str());
            let both = joined(head.as_str(), "; rollback failed: ");
            Err(BackupError::new(ErrorKind::IoFailure, joined(both.as_str(), back.as_str())))
        },
    }
}

} // verus!
