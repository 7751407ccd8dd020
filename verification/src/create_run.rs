//! What taking a backup does to the files it touches: a model of the runs it
//! can take, and the guarantees every run gives.

use vstd::prelude::*;
use crate::create::{
    create_next, create_outcome_result, create_pending, BackupDraft, CreateAction, CreateOutcome,
    CreateStep,
};
use crate::directory::{backup_dir_of, google_drive_unsupported, Platform};
use crate::error::{ErrorKind, Failure};
use crate::host::Reply;
use crate::service::CloudService;

verus! {

/// The files that taking a backup reads and writes, each with its bytes if
/// it exists.
pub struct SnapshotFiles {
    /// The live data file.
    pub live: Option<Seq<u8>>,
    /// The new file in the backup folder.
    pub copy: Option<Seq<u8>>,
}

/// Whether a reply is of the kind the action calls for.
pub open spec fn create_answers(action: CreateAction, reply: Reply<Seq<char>>) -> bool {
    match (action, reply) {
        (CreateAction::ProbeSource, Reply::Probed(_)) => true,
        (CreateAction::EnsureFolder, Reply::Finished(_)) => true,
        (CreateAction::CopySnapshot, Reply::Finished(_)) => true,
        (CreateAction::Measure, Reply::Measured(_)) => true,
        (CreateAction::Upload, Reply::Uploaded(_)) => true,
        (CreateAction::SweepRemote, Reply::Finished(_)) => true,
        _ => false,
    }
}

/// Whether `after` can be what the files are once `action` was carried out on
/// `before` and reported as `reply`. Only the copy writes, and only to the new
/// file; a copy that succeeded made the new file equal to the live data file;
/// a probe and a measurement tell the truth.
pub open spec fn create_may_follow(
    action: CreateAction,
    reply: Reply<Seq<char>>,
    before: SnapshotFiles,
    after: SnapshotFiles,
) -> bool {
    match (action, reply) {
        (CreateAction::ProbeSource, Reply::Probed(found)) => after == before && found
            == before.live.is_some(),
        (CreateAction::CopySnapshot, Reply::Finished(r)) => {
            &&& after.live == before.live
            &&& r is Ok ==> before.live is Some && after.copy == before.live
        },
        (CreateAction::Measure, Reply::Measured(r)) => {
            &&& after == before
            &&& r matches Ok(size) ==> before.copy matches Some(bytes) && bytes.len() == size
        },
        _ => after == before,
    }
}

/// One step of a run: what the caller reported and the files as they were then.
pub struct CreateMoment {
    pub reply: Reply<Seq<char>>,
    pub files: SnapshotFiles,
}

/// Whether `steps` is a run of taking a backup from `step` on `files`.
pub open spec fn is_create_run(
    draft: BackupDraft,
    step: CreateStep<Seq<char>>,
    files: SnapshotFiles,
    steps: Seq<CreateMoment>,
) -> bool
    decreases steps.len(),
{
    if steps.len() == 0 {
        true
    } else {
        &&& create_answers(create_pending(step), steps[0].reply)
        &&& create_may_follow(create_pending(step), steps[0].reply, files, steps[0].files)
        &&& is_create_run(
            draft,
            create_next(draft, step, steps[0].reply),
            steps[0].files,
            steps.skip(1),
        )
    }
}

/// The step a run ends in.
pub open spec fn create_run_end(
    draft: BackupDraft,
    step: CreateStep<Seq<char>>,
    steps: Seq<CreateMoment>,
) -> CreateStep<Seq<char>>
    decreases steps.len(),
{
    if steps.len() == 0 {
        step
    } else {
        create_run_end(draft, create_next(draft, step, steps[0].reply), steps.skip(1))
    }
}

/// The files at the end of a run.
pub open spec fn create_run_files(files: SnapshotFiles, steps: Seq<CreateMoment>) -> SnapshotFiles {
    if steps.len() == 0 {
        files
    } else {
        steps.last().files
    }
}

/// What holds in every step of a run that began on live data `old`: the live
/// data is untouched, nothing is written while the backend has no folder, and
/// from the copy on the new file equals the live data, whose length is the
/// size reported.
pub open spec fn snapshot_is_true(
    draft: BackupDraft,
    step: CreateStep<Seq<char>>,
    old: Option<Seq<u8>>,
    first: SnapshotFiles,
    now: SnapshotFiles,
) -> bool {
    &&& now.live == old
    &&& match step {
        CreateStep::CheckingSource => now == first,
        CreateStep::PreparingFolder => draft.folder is Ok,
        CreateStep::Copying => draft.folder is Ok,
        CreateStep::Measuring => draft.folder is Ok && old is Some && now.copy == old,
        CreateStep::Uploading(size) => {
            &&& draft.folder is Ok
            &&& draft.service == CloudService::Icloud
            &&& old matches Some(bytes) && bytes.len() == size && now.copy == old
        },
        CreateStep::Sweeping(size) => {
            &&& draft.folder is Ok
            &&& draft.service == CloudService::Icloud
            &&& old matches Some(bytes) && bytes.len() == size && now.copy == old
        },
        CreateStep::Done(outcome) => match outcome {
            CreateOutcome::Created(size, _) => {
                &&& draft.folder is Ok
                &&& old matches Some(bytes) && bytes.len() == size && now.copy == old
            },
            CreateOutcome::SourceMissing => now == first && old is None,
            CreateOutcome::Unavailable(kind, why) => now == first && draft.folder == Err::<
                crate::directory::BackupDirPath,
                Failure,
            >(Failure { kind, message: why }),
            _ => draft.folder is Ok,
        },
    }
}

/// A run keeps what `snapshot_is_true` says.
pub proof fn lemma_create_run_is_true(
    draft: BackupDraft,
    step: CreateStep<Seq<char>>,
    old: Option<Seq<u8>>,
    first: SnapshotFiles,
    files: SnapshotFiles,
    steps: Seq<CreateMoment>,
)
    requires
        is_create_run(draft, step, files, steps),
        snapshot_is_true(draft, step, old, first, files),
    ensures
        snapshot_is_true(
            draft,
            create_run_end(draft, step, steps),
            old,
            first,
            create_run_files(files, steps),
        ),
    decreases steps.len(),
{
    if steps.len() > 0 {
        let next = create_next(draft, step, steps[0].reply);
        let rest = steps.skip(1);
        lemma_create_run_is_true(draft, next, old, first, steps[0].files, rest);
        if rest.len() > 0 {
            assert(rest.last() == steps.last());
        }
    }
}

/// A backup that is reported as taken is a byte-for-byte copy of the live data
/// file, which is unchanged, and the size reported is the length of that file.
pub proof fn lemma_created_backup_is_a_copy(
    draft: BackupDraft,
    files: SnapshotFiles,
    steps: Seq<CreateMoment>,
)
    requires
        is_create_run(draft, CreateStep::CheckingSource, files, steps),
        create_run_end(draft, CreateStep::CheckingSource, steps) is Done,
        create_run_end(draft, CreateStep::CheckingSource, steps)->Done_0 is Created,
    ensures
        ({
            let size = create_run_end(draft, CreateStep::CheckingSource, steps)->Done_0->Created_0;
            let end = create_run_files(files, steps);
            &&& files.live matches Some(bytes) && bytes.len() == size
            &&& end.live == files.live
            &&& end.copy == files.live
        }),
{
    lemma_create_run_is_true(draft, CreateStep::CheckingSource, files.live, files, files, steps);
}

/// For a backend without a folder, taking a backup fails with the reason the
/// backend has none, or because there is nothing to back up. Nothing is made
/// on the way, on disk or in the remote store: the files are as they were, and
/// the caller is never asked for more than to look whether the live data file
/// exists.
pub proof fn lemma_unavailable_backend_writes_nothing(
    draft: BackupDraft,
    files: SnapshotFiles,
    steps: Seq<CreateMoment>,
)
    requires
        is_create_run(draft, CreateStep::CheckingSource, files, steps),
        draft.folder is Err,
    ensures
        ({
            let end = create_run_end(draft, CreateStep::CheckingSource, steps);
            &&& create_run_files(files, steps) == files
            &&& end is CheckingSource || end is Done
            &&& create_pending(end) == CreateAction::ProbeSource || create_pending(end)
                == CreateAction::Finish
            &&& end matches CreateStep::Done(outcome) ==> {
                ||| create_outcome_result(draft, outcome) == Err::<
                    (crate::record::BackupRecord, Option<Seq<char>>),
                    Failure,
                >(draft.folder->Err_0)
                ||| outcome is SourceMissing
            }
        }),
{
    lemma_create_run_is_true(draft, CreateStep::CheckingSource, files.live, files, files, steps);
}

/// Google Drive is such a backend, whatever the platform.
pub proof fn lemma_google_drive_has_no_folder(
    app_data_dir: Seq<char>,
    home: Option<Seq<char>>,
    platform: Platform,
)
    ensures
        backup_dir_of(app_data_dir, home, platform, CloudService::GoogleDrive) == Err::<
            crate::directory::BackupDirPath,
            Failure,
        >(google_drive_unsupported()),
        google_drive_unsupported().kind == ErrorKind::BackendUnavailable,
{
}

/// The step reached from `step` after the replies, whatever happens to the files.
pub open spec fn create_after(
    draft: BackupDraft,
    step: CreateStep<Seq<char>>,
    replies: Seq<Reply<Seq<char>>>,
) -> CreateStep<Seq<char>>
    decreases replies.len(),
{
    if replies.len() == 0 {
        step
    } else {
        create_after(draft, create_next(draft, step, replies[0]), replies.skip(1))
    }
}

/// Whether a step is past the local copy of `size` bytes: busy with the
/// remote store, or done with the backup taken.
pub open spec fn local_copy_stands(step: CreateStep<Seq<char>>, size: u64) -> bool {
    match step {
        CreateStep::Uploading(n) => n == size,
        CreateStep::Sweeping(n) => n == size,
        CreateStep::Done(CreateOutcome::Created(n, _)) => n == size,
        _ => false,
    }
}

/// Once the local copy is made, nothing the remote store reports can turn the
/// backup into a failure.
pub proof fn lemma_remote_failure_keeps_backup(
    draft: BackupDraft,
    step: CreateStep<Seq<char>>,
    size: u64,
    replies: Seq<Reply<Seq<char>>>,
)
    requires
        local_copy_stands(step, size),
    ensures
        local_copy_stands(create_after(draft, step, replies), size),
        create_after(draft, step, replies) matches CreateStep::Done(outcome)
            ==> create_outcome_result(draft, outcome) is Ok && create_outcome_result(
            draft,
            outcome,
        )->Ok_0.0.size == size,
    decreases replies.len(),
{
    if replies.len() > 0 {
        lemma_remote_failure_keeps_backup(
            draft,
            create_next(draft, step, replies[0]),
            size,
            replies.skip(1),
        );
    }
}

/// In particular a failed upload ends the work with the backup taken and a warning.
pub proof fn lemma_failed_upload_is_a_warning(draft: BackupDraft, size: u64, why: Seq<char>)
    ensures
        create_next(draft, CreateStep::Uploading(size), Reply::Uploaded(Err(why)))
            matches CreateStep::Done(CreateOutcome::Created(n, Some(_))) && n == size,
{
}

/// The number of reports that taking a backup can still take in a step, at most.
pub open spec fn create_steps_left(step: CreateStep<Seq<char>>) -> nat {
    match step {
        CreateStep::CheckingSource => 6,
        CreateStep::PreparingFolder => 5,
        CreateStep::Copying => 4,
        CreateStep::Measuring => 3,
        CreateStep::Uploading(_) => 2,
        CreateStep::Sweeping(_) => 1,
        CreateStep::Done(_) => 0,
    }
}

/// Taking a backup ends: every report that answers the pending action brings
/// it closer to its end, so no run is longer than six reports.
pub proof fn lemma_create_ends(
    draft: BackupDraft,
    step: CreateStep<Seq<char>>,
    files: SnapshotFiles,
    steps: Seq<CreateMoment>,
)
    requires
        is_create_run(draft, step, files, steps),
    ensures
        steps.len() + create_steps_left(create_run_end(draft, step, steps)) <= create_steps_left(
            step,
        ),
        create_steps_left(create_run_end(draft, step, steps)) == 0 <==> create_run_end(
            draft,
            step,
            steps,
        ) is Done,
    decreases steps.len(),
{
    if steps.len() > 0 {
        lemma_create_ends(
            draft,
            create_next(draft, step, steps[0].reply),
            steps[0].files,
            steps.skip(1),
        );
    }
}

} // verus!
