//! Taking a backup: what is decided before any file is touched, and the
//! decisions between the steps of the file work, which the caller does.

use vstd::prelude::*;
use vstd::string::*;
use crate::clock::{compact_layout, compact_stamp, known_layout, utc_now, utc_text};
use crate::directory::{
    backup_dir_of, dir_result, folder_failure, folder_not_made, get_backup_dir_for_service,
    slice_text, BackupDir, BackupDirPath, Platform,
};
use crate::error::{BackupError, ErrorKind, Failure};
use crate::host::Reply;
use crate::ident::{fresh_id, ID_LENGTH};
use crate::naming::{backup_filename, backup_name};
use crate::record::{BackupInfo, BackupRecord};
use crate::service::CloudService;
use crate::text::joined;

verus! {

/// A backup about to be taken: everything about it but its size.
#[derive(Debug, PartialEq, Eq)]
pub struct NewBackup {
    pub service: CloudService,
    pub id: String,
    pub filename: String,
    pub created_at: i64,
    /// The folder it goes to, or why the backend has none.
    pub folder: Result<BackupDir, BackupError>,
}

/// A `NewBackup` as a mathematical value.
pub struct BackupDraft {
    pub service: CloudService,
    pub id: Seq<char>,
    pub filename: Seq<char>,
    pub created_at: i64,
    pub folder: Result<BackupDirPath, Failure>,
}

impl View for NewBackup {
    type V = BackupDraft;

    open spec fn view(&self) -> BackupDraft {
        BackupDraft {
            service: self.service,
            id: self.id@,
            filename: self.filename@,
            created_at: self.created_at,
            folder: dir_result(self.folder),
        }
    }
}

/// The work that taking a backup asks of its caller.
#[derive(Debug, Clone, Copy, PartialEq, Eq, Structural)]
pub enum CreateAction {
    /// Tell whether the live data file exists.
    ProbeSource,
    /// Make the backup folder, with its parents, if it is missing.
    EnsureFolder,
    /// Copy the live data file into the backup folder under the new name.
    CopySnapshot,
    /// Read the length of the copy.
    Measure,
    /// Hand the copy to the remote store.
    Upload,
    /// Delete what the remote store holds beyond its limit.
    SweepRemote,
    /// Nothing: the backup is taken, or has failed.
    Finish,
}

/// How taking a backup ended.
#[derive(Debug, PartialEq, Eq)]
pub enum CreateOutcome<T> {
    /// The snapshot is in the backup folder and has this many bytes. The
    /// warning tells what went wrong with the remote store, if anything did.
    Created(u64, Option<T>),
    /// There is no live data file to copy.
    SourceMissing,
    /// The backend has no folder, for the reason given.
    Unavailable(ErrorKind, T),
    /// The backup folder could not be made.
    FolderFailed(T),
    /// The live data file could not be copied.
    CopyFailed(T),
    /// The length of the copy could not be read.
    MeasureFailed(T),
}

/// Where taking a backup stands.
#[derive(Debug, PartialEq, Eq)]
pub enum CreateStep<T> {
    CheckingSource,
    PreparingFolder,
    Copying,
    Measuring,
    /// Uploading the copy, which has this many bytes.
    Uploading(u64),
    /// Sweeping the remote store after the upload.
    Sweeping(u64),
    Done(CreateOutcome<T>),
}

impl View for CreateOutcome<String> {
    type V = CreateOutcome<Seq<char>>;

    open spec fn view(&self) -> CreateOutcome<Seq<char>> {
        match *self {
            CreateOutcome::Created(size, Some(warning)) => CreateOutcome::Created(
                size,
                Some(warning@),
            ),
            CreateOutcome::Created(size, None) => CreateOutcome::Created(size, None),
            CreateOutcome::SourceMissing => CreateOutcome::SourceMissing,
            CreateOutcome::Unavailable(kind, why) => CreateOutcome::Unavailable(kind, why@),
            CreateOutcome::FolderFailed(why) => CreateOutcome::FolderFailed(why@),
            CreateOutcome::CopyFailed(why) => CreateOutcome::CopyFailed(why@),
            CreateOutcome::MeasureFailed(why) => CreateOutcome::MeasureFailed(why@),
        }
    }
}

impl View for CreateStep<String> {
    type V = CreateStep<Seq<char>>;

    open spec fn view(&self) -> CreateStep<Seq<char>> {
        match *self {
            CreateStep::CheckingSource => CreateStep::CheckingSource,
            CreateStep::PreparingFolder => CreateStep::PreparingFolder,
            CreateStep::Copying => CreateStep::Copying,
            CreateStep::Measuring => CreateStep::Measuring,
            CreateStep::Uploading(size) => CreateStep::Uploading(size),
            CreateStep::Sweeping(size) => CreateStep::Sweeping(size),
            CreateStep::Done(outcome) => CreateStep::Done(outcome@),
        }
    }
}

/// The action pending in a step.
pub open spec fn create_pending(step: CreateStep<Seq<char>>) -> CreateAction {
    match step {
        CreateStep::CheckingSource => CreateAction::ProbeSource,
        CreateStep::PreparingFolder => CreateAction::EnsureFolder,
        CreateStep::Copying => CreateAction::CopySnapshot,
        CreateStep::Measuring => CreateAction::Measure,
        CreateStep::Uploading(_) => CreateAction::Upload,
        CreateStep::Sweeping(_) => CreateAction::SweepRemote,
        CreateStep::Done(_) => CreateAction::Finish,
    }
}

/// The warning for an upload that failed after the local copy was made.
pub open spec fn upload_warning(why: Seq<char>) -> Seq<char> {
    "CloudKit upload failed (local backup saved): "@ + why
}

/// The warning for a sweep of the remote store that failed.
pub open spec fn sweep_warning(why: Seq<char>) -> Seq<char> {
    "CloudKit cleanup warning: "@ + why
}

/// The step after a reply. A reply that does not answer the pending action
/// changes nothing.
///
/// A missing live data file ends the work before anything is written, and so
/// does a backend without a folder. Once the copy is made and measured the
/// backup counts as taken: for the synced backend it is then uploaded and the
/// remote store swept, and a failure there only adds a warning.
pub open spec fn create_next(
    draft: BackupDraft,
    step: CreateStep<Seq<char>>,
    reply: Reply<Seq<char>>,
) -> CreateStep<Seq<char>> {
    match (step, reply) {
        (CreateStep::CheckingSource, Reply::Probed(false)) => CreateStep::Done(
            CreateOutcome::SourceMissing,
        ),
        (CreateStep::CheckingSource, Reply::Probed(true)) => match draft.folder {
            Err(f) => CreateStep::Done(CreateOutcome::Unavailable(f.kind, f.message)),
            Ok(_) => CreateStep::PreparingFolder,
        },
        (CreateStep::PreparingFolder, Reply::Finished(Ok(_))) => CreateStep::Copying,
        (CreateStep::PreparingFolder, Reply::Finished(Err(why))) => CreateStep::Done(
            CreateOutcome::FolderFailed(why),
        ),
        (CreateStep::Copying, Reply::Finished(Ok(_))) => CreateStep::Measuring,
        (CreateStep::Copying, Reply::Finished(Err(why))) => CreateStep::Done(
            CreateOutcome::CopyFailed(why),
        ),
        (CreateStep::Measuring, Reply::Measured(Ok(size))) => if draft.service
            == CloudService::Icloud {
            CreateStep::Uploading(size)
        } else {
            CreateStep::Done(CreateOutcome::Created(size, None))
        },
        (CreateStep::Measuring, Reply::Measured(Err(why))) => CreateStep::Done(
            CreateOutcome::MeasureFailed(why),
        ),
        (CreateStep::Uploading(size), Reply::Uploaded(Ok(_))) => CreateStep::Sweeping(size),
        (CreateStep::Uploading(size), Reply::Uploaded(Err(why))) => CreateStep::Done(
            CreateOutcome::Created(size, Some(upload_warning(why))),
        ),
        (CreateStep::Sweeping(size), Reply::Finished(Ok(_))) => CreateStep::Done(
            CreateOutcome::Created(size, None),
        ),
        (CreateStep::Sweeping(size), Reply::Finished(Err(why))) => CreateStep::Done(
            CreateOutcome::Created(size, Some(sweep_warning(why))),
        ),
        (step, _) => step,
    }
}

/// A backup that was taken, with what went wrong on the way without undoing it.
#[derive(Debug, PartialEq, Eq)]
pub struct Created {
    pub backup: BackupInfo,
    pub warning: Option<String>,
}

/// What the caller is told when taking a backup is over.
pub open spec fn create_outcome_result(
    draft: BackupDraft,
    outcome: CreateOutcome<Seq<char>>,
) -> Result<(BackupRecord, Option<Seq<char>>), Failure> {
    match outcome {
        CreateOutcome::Created(size, warning) => Ok(
            (
                BackupRecord {
                    id: draft.id,
                    service: draft.service,
                    filename: draft.filename,
                    size,
                    created_at: draft.created_at,
                },
                warning,
            ),
        ),
        CreateOutcome::SourceMissing => Err(
            Failure { kind: ErrorKind::NotFound, message: "Source database does not exist"@ },
        ),
        CreateOutcome::Unavailable(kind, why) => Err(Failure { kind, message: why }),
        CreateOutcome::FolderFailed(why) => Err(folder_not_made(why)),
        CreateOutcome::CopyFailed(why) => Err(
            Failure { kind: ErrorKind::IoFailure, message: "Failed to copy database: "@ + why },
        ),
        CreateOutcome::MeasureFailed(why) => Err(
            Failure { kind: ErrorKind::IoFailure, message: "Failed to get metadata: "@ + why },
        ),
    }
}

/// What a result of taking a backup stands for.
pub open spec fn created_view(
    r: Result<Created, BackupError>,
) -> Result<(BackupRecord, Option<Seq<char>>), Failure> {
    match r {
        Ok(c) => Ok(
            (
                c.backup@,
                match c.warning {
                    Some(w) => Some(w@),
                    None => None,
                },
            ),
        ),
        Err(e) => Err(e@),
    }
}

/// Settles the name and the folder of a backup taken at `now`, whose time
/// stamp chrono spells `stamp`.
pub fn plan_backup(
    app_data_dir: &str,
    home: Option<&str>,
    platform: Platform,
    service: CloudService,
    id: String,
    now: i64,
    stamp: &str,
) -> (draft: NewBackup)
    ensures
        draft@ == (BackupDraft {
            service,
            id: id@,
            filename: backup_name(stamp@),
            created_at: now,
            folder: backup_dir_of(app_data_dir@, slice_text(home), platform, service),
        }),
{
    NewBackup {
        service,
        id,
        filename: backup_filename(stamp),
        created_at: now,
        folder: get_backup_dir_for_service(app_data_dir, home, platform, &service),
    }
}

/// Begins a backup now: reads the clock, draws a fresh id, and settles the
/// name and the folder.
pub fn create_backup(
    app_data_dir: &str,
    home: Option<&str>,
    platform: Platform,
    service: CloudService,
) -> (draft: NewBackup)
    ensures
        draft@.service == service,
        draft@.folder == backup_dir_of(app_data_dir@, slice_text(home), platform, service),
        utc_text(draft@.created_at, compact_layout()) matches Some(stamp) && draft@.filename
            == backup_name(stamp),
        draft@.id.len() == ID_LENGTH,
{
    let now = utc_now();
    let stamp = compact_stamp(now);
    assert(known_layout(compact_layout()));
    let stamp = stamp.unwrap();
    plan_backup(app_data_dir, home, platform, service, fresh_id(), now, stamp.as_str())
}

/// The step a backup starts in.
pub fn create_start() -> (step: CreateStep<String>)
    ensures
        step@ == CreateStep::<Seq<char>>::CheckingSource,
{
    CreateStep::CheckingSource
}

/// The action the backup waits for.
pub fn create_action(step: &CreateStep<String>) -> (action: CreateAction)
    ensures
        action == create_pending(step@),
{
    match step {
        CreateStep::CheckingSource => CreateAction::ProbeSource,
        CreateStep::PreparingFolder => CreateAction::EnsureFolder,
        CreateStep::Copying => CreateAction::CopySnapshot,
        CreateStep::Measuring => CreateAction::Measure,
        CreateStep::Uploading(_) => CreateAction::Upload,
        CreateStep::Sweeping(_) => CreateAction::SweepRemote,
        CreateStep::Done(_) => CreateAction::Finish,
    }
}

/// Takes the caller's report on the pending action and moves on.
pub fn create_step(
    draft: &NewBackup,
    step: CreateStep<String>,
    reply: Reply<String>,
) -> (next: CreateStep<String>)
    ensures
        next@ == create_next(draft@, step@, reply@),
{
    match (step, reply) {
        (CreateStep::CheckingSource, Reply::Probed(found)) => {
            if !found {
                CreateStep::Done(CreateOutcome::SourceMissing)
            } else {
                match &draft.folder {
                    Err(e) => CreateStep::Done(
                        CreateOutcome::Unavailable(e.kind, e.message.clone()),
                    ),
                    Ok(_) => CreateStep::PreparingFolder,
                }
            }
        },
        (CreateStep::PreparingFolder, Reply::Finished(r)) => match r {
            Ok(_) => CreateStep::Copying,
            Err(why) => CreateStep::Done(CreateOutcome::FolderFailed(why)),
        },
        (CreateStep::Copying, Reply::Finished(r)) => match r {
            Ok(_) => CreateStep::Measuring,
            Err(why) => CreateStep::Done(CreateOutcome::CopyFailed(why)),
        },
        (CreateStep::Measuring, Reply::Measured(r)) => match r {
            Ok(size) => {
                if draft.service == CloudService::Icloud {
                    CreateStep::Uploading(size)
                } else {
                    CreateStep::Done(CreateOutcome::Created(size, None))
                }
            },
            Err(why) => CreateStep::Done(CreateOutcome::MeasureFailed(why)),
        },
        (CreateStep::Uploading(size), Reply::Uploaded(r)) => match r {
            Ok(_) => CreateStep::Sweeping(size),
            Err(why) => CreateStep::Done(
                CreateOutcome::Created(
                    size,
                    Some(joined("CloudKit upload failed (local backup saved): ", why.as_str())),
                ),
            ),
        },
        (CreateStep::Sweeping(size), Reply::Finished(r)) => match r {
            Ok(_) => CreateStep::Done(CreateOutcome::Created(size, None)),
            Err(why) => CreateStep::Done(
                CreateOutcome::Created(
                    size,
                    Some(joined("CloudKit cleanup warning: ", why.as_str())),
                ),
            ),
        },
        (step, _) => step,
    }
}

/// The result to hand to the user once taking the backup is over.
pub fn create_result(
    draft: NewBackup,
    outcome: CreateOutcome<String>,
) -> (r: Result<Created, BackupError>)
    ensures
        created_view(r) == create_outcome_result(draft@, outcome@),
{
    match outcome {
        CreateOutcome::Created(size, warning) => Ok(
            Created {
                backup: BackupInfo {
                    id: draft.id,
                    service: draft.service,
                    filename: draft.filename,
                    size,
                    created_at: draft.created_at,
                },
                warning,
            },
        ),
        CreateOutcome::SourceMissing => Err(
            BackupError::new(
                ErrorKind::NotFound,
                String::from_str("Source database does not exist"),
            ),
        ),
        CreateOutcome::Unavailable(kind, why) => Err(BackupError::new(kind, why)),
        CreateOutcome::FolderFailed(why) => Err(folder_failure(why.as_str())),
        CreateOutcome::CopyFailed(why) => Err(
            BackupError::new(ErrorKind::IoFailure, joined("Failed to copy database: ", why.as_str())),
        ),
        CreateOutcome::MeasureFailed(why) => Err(
            BackupError::new(ErrorKind::IoFailure, joined("Failed to get metadata: ", why.as_str())),
        ),
    }
}

} // verus!
