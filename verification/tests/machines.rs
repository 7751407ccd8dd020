use sisters_salon::create::{
    create_action, create_backup, create_result, create_start, create_step, plan_backup,
    CreateAction, CreateOutcome, CreateStep, NewBackup,
};
use sisters_salon::delete::{
    delete_action, delete_backup, delete_result, delete_step, DeleteAction, DeleteOutcome,
    DeleteState,
};
use sisters_salon::directory::{get_backup_dir_for_service, Platform};
use sisters_salon::error::ErrorKind;
use sisters_salon::host::Reply;
use sisters_salon::restore::{
    restore_action, restore_backup, restore_result, restore_step, RestoreAction, RestoreOutcome,
    RestoreState,
};
use sisters_salon::service::CloudService;

/// Three files in memory, on which the actions of a restore are carried out.
struct Disk {
    snapshot: Option<Vec<u8>>,
    live: Option<Vec<u8>>,
    checkpoint: Option<Vec<u8>>,
    remote: Option<Vec<u8>>,
    fail_apply: bool,
    fail_rollback: bool,
    fail_checkpoint: bool,
    log: Vec<RestoreAction>,
}

impl Disk {
    fn new(snapshot: Option<&[u8]>, live: Option<&[u8]>) -> Disk {
        Disk {
            snapshot: snapshot.map(|b| b.to_vec()),
            live: live.map(|b| b.to_vec()),
            checkpoint: None,
            remote: None,
            fail_apply: false,
            fail_rollback: false,
            fail_checkpoint: false,
            log: Vec::new(),
        }
    }

    fn perform(&mut self, action: RestoreAction) -> Reply<String> {
        self.log.push(action);
        match action {
            RestoreAction::ProbeSnapshot => Reply::Probed(self.snapshot.is_some()),
            RestoreAction::ProbeLive => Reply::Probed(self.live.is_some()),
            RestoreAction::Download => match self.remote.clone() {
                Some(bytes) => {
                    self.snapshot = Some(bytes);
                    Reply::Finished(Ok(()))
                }
                None => Reply::Finished(Err("no such record".to_string())),
            },
            RestoreAction::WriteCheckpoint => {
                if self.fail_checkpoint {
                    Reply::Finished(Err("disk full".to_string()))
                } else {
                    self.checkpoint = self.live.clone();
                    Reply::Finished(Ok(()))
                }
            }
            RestoreAction::Apply => {
                if self.fail_apply {
                    self.live = Some(b"half".to_vec());
                    Reply::Finished(Err("read-only".to_string()))
                } else {
                    self.live = self.snapshot.clone();
                    Reply::Finished(Ok(()))
                }
            }
            RestoreAction::RollBack => {
                if self.fail_rollback {
                    Reply::Finished(Err("still read-only".to_string()))
                } else {
                    self.live = self.checkpoint.clone();
                    Reply::Finished(Ok(()))
                }
            }
            RestoreAction::RemoveCheckpoint => {
                self.checkpoint = None;
                Reply::Finished(Ok(()))
            }
            RestoreAction::Finish => unreachable!(),
        }
    }

    fn restore(&mut self, service: CloudService) -> RestoreOutcome<String> {
        let mut state = restore_backup(service);
        loop {
            match state {
                RestoreState::Done(outcome) => return outcome,
                other => {
                    let reply = self.perform(restore_action(&other));
                    state = restore_step(other, reply);
                }
            }
        }
    }
}

#[test]
fn restore_success_puts_snapshot_in_place() {
    let mut disk = Disk::new(Some(b"snapshot bytes"), Some(b"live bytes"));
    let outcome = disk.restore(CloudService::Local);
    assert_eq!(outcome, RestoreOutcome::Restored);
    assert_eq!(restore_result(&outcome), Ok(()));
    assert_eq!(disk.live.as_deref(), Some(&b"snapshot bytes"[..]));
    assert_eq!(disk.checkpoint, None);
    assert_eq!(
        disk.log,
        vec![
            RestoreAction::ProbeSnapshot,
            RestoreAction::ProbeLive,
            RestoreAction::WriteCheckpoint,
            RestoreAction::Apply,
            RestoreAction::RemoveCheckpoint,
        ]
    );
}

#[test]
fn restore_without_live_file_takes_no_checkpoint() {
    let mut disk = Disk::new(Some(b"snapshot bytes"), None);
    assert_eq!(disk.restore(CloudService::Local), RestoreOutcome::Restored);
    assert_eq!(disk.live.as_deref(), Some(&b"snapshot bytes"[..]));
    assert!(!disk.log.contains(&RestoreAction::WriteCheckpoint));
}

#[test]
fn restore_rollback_keeps_old_data() {
    let mut disk = Disk::new(Some(b"snapshot bytes"), Some(b"live bytes"));
    disk.fail_apply = true;
    let outcome = disk.restore(CloudService::Local);
    assert_eq!(outcome, RestoreOutcome::ApplyFailed("read-only".to_string()));
    let e = restore_result(&outcome).unwrap_err();
    assert_eq!(e.kind, ErrorKind::IoFailure);
    assert_eq!(e.message, "Failed to restore backup: read-only");
    assert_eq!(disk.live.as_deref(), Some(&b"live bytes"[..]));
    assert_eq!(disk.checkpoint, None);
    assert_eq!(disk.snapshot.as_deref(), Some(&b"snapshot bytes"[..]));
}

#[test]
fn restore_failed_rollback_keeps_checkpoint() {
    let mut disk = Disk::new(Some(b"snapshot bytes"), Some(b"live bytes"));
    disk.fail_apply = true;
    disk.fail_rollback = true;
    let outcome = disk.restore(CloudService::Local);
    assert_eq!(
        outcome,
        RestoreOutcome::RollbackFailed("read-only".to_string(), "still read-only".to_string())
    );
    let e = restore_result(&outcome).unwrap_err();
    assert_eq!(e.kind, ErrorKind::IoFailure);
    assert_eq!(
        e.message,
        "Failed to restore backup: read-only; rollback failed: still read-only"
    );
    assert_eq!(disk.checkpoint.as_deref(), Some(&b"live bytes"[..]));
    assert!(!disk.log.contains(&RestoreAction::RemoveCheckpoint));
}

#[test]
fn restore_apply_failure_without_live_file() {
    let mut disk = Disk::new(Some(b"snapshot bytes"), None);
    disk.fail_apply = true;
    let outcome = disk.restore(CloudService::Local);
    assert_eq!(outcome, RestoreOutcome::ApplyFailed("read-only".to_string()));
    assert!(!disk.log.contains(&RestoreAction::RollBack));
}

#[test]
fn restore_checkpoint_failure_changes_nothing() {
    let mut disk = Disk::new(Some(b"snapshot bytes"), Some(b"live bytes"));
    disk.fail_checkpoint = true;
    let outcome = disk.restore(CloudService::Local);
    assert_eq!(outcome, RestoreOutcome::CheckpointFailed("disk full".to_string()));
    assert_eq!(
        restore_result(&outcome).unwrap_err().message,
        "Failed to create temp backup: disk full"
    );
    assert_eq!(disk.live.as_deref(), Some(&b"live bytes"[..]));
    assert!(!disk.log.contains(&RestoreAction::Apply));
}

#[test]
fn restore_of_missing_local_snapshot() {
    for service in [CloudService::Local, CloudService::GoogleDrive] {
        let mut disk = Disk::new(None, Some(b"live bytes"));
        let outcome = disk.restore(service);
        assert_eq!(outcome, RestoreOutcome::SnapshotMissing);
        let e = restore_result(&outcome).unwrap_err();
        assert_eq!(e.kind, ErrorKind::NotFound);
        assert_eq!(e.message, "Backup file not found");
        assert_eq!(disk.log, vec![RestoreAction::ProbeSnapshot]);
        assert_eq!(disk.live.as_deref(), Some(&b"live bytes"[..]));
    }
}

#[test]
fn restore_downloads_missing_synced_snapshot() {
    let mut disk = Disk::new(None, Some(b"live bytes"));
    disk.remote = Some(b"remote bytes".to_vec());
    assert_eq!(disk.restore(CloudService::Icloud), RestoreOutcome::Restored);
    assert_eq!(disk.live.as_deref(), Some(&b"remote bytes"[..]));
    assert_eq!(
        disk.log[..3],
        [RestoreAction::ProbeSnapshot, RestoreAction::Download, RestoreAction::ProbeSnapshot]
    );
}

#[test]
fn restore_uses_local_copy_of_synced_snapshot() {
    let mut disk = Disk::new(Some(b"local copy"), Some(b"live bytes"));
    disk.remote = Some(b"remote bytes".to_vec());
    assert_eq!(disk.restore(CloudService::Icloud), RestoreOutcome::Restored);
    assert_eq!(disk.live.as_deref(), Some(&b"local copy"[..]));
    assert!(!disk.log.contains(&RestoreAction::Download));
}

#[test]
fn restore_failed_download_is_final() {
    let mut disk = Disk::new(None, Some(b"live bytes"));
    let outcome = disk.restore(CloudService::Icloud);
    assert_eq!(outcome, RestoreOutcome::DownloadFailed("no such record".to_string()));
    let e = restore_result(&outcome).unwrap_err();
    assert_eq!(e.kind, ErrorKind::BackendUnavailable);
    assert_eq!(e.message, "no such record");
    assert_eq!(disk.live.as_deref(), Some(&b"live bytes"[..]));
}

#[test]
fn restore_ignores_replies_of_the_wrong_kind() {
    let state = restore_step(restore_backup(CloudService::Local), Reply::Finished(Ok(())));
    assert_eq!(state, RestoreState::Locating(CloudService::Local));
    let state = restore_step(RestoreState::Applying(true), Reply::Probed(true));
    assert_eq!(state, RestoreState::Applying(true));
    let state = restore_step(RestoreState::Committing, Reply::Measured(Ok(3)));
    assert_eq!(state, RestoreState::Committing);
    let done = RestoreState::Done(RestoreOutcome::Restored);
    assert_eq!(restore_action(&done), RestoreAction::Finish);
    assert_eq!(restore_step(done, Reply::Finished(Err("late".to_string()))), RestoreState::Done(RestoreOutcome::Restored));
}

#[test]
fn restore_commit_ignores_failed_removal() {
    let state = restore_step(RestoreState::Committing, Reply::Finished(Err("busy".to_string())));
    assert_eq!(state, RestoreState::Done(RestoreOutcome::Restored));
    let state = restore_step(
        RestoreState::Discarding("why".to_string()),
        Reply::Finished(Err("busy".to_string())),
    );
    assert_eq!(state, RestoreState::Done(RestoreOutcome::ApplyFailed("why".to_string())));
}

fn draft(service: CloudService, platform: Platform) -> NewBackup {
    plan_backup(
        "/data/app",
        Some("/home/u"),
        platform,
        service,
        "id-1".to_string(),
        1_709_337_599,
        "20240301_235959",
    )
}

fn run_create(draft: &NewBackup, replies: Vec<Reply<String>>) -> (CreateStep<String>, Vec<CreateAction>) {
    let mut step = create_start();
    let mut asked = Vec::new();
    for reply in replies {
        asked.push(create_action(&step));
        step = create_step(draft, step, reply);
    }
    (step, asked)
}

#[test]
fn plan_settles_name_and_folder() {
    let d = draft(CloudService::Local, Platform::Other);
    assert_eq!(d.filename, "salon_backup_20240301_235959.db");
    assert_eq!(d.id, "id-1");
    assert_eq!(d.created_at, 1_709_337_599);
    assert_eq!(d.service, CloudService::Local);
    assert_eq!(
        d.folder,
        get_backup_dir_for_service("/data/app", Some("/home/u"), Platform::Other, &CloudService::Local)
    );
}

#[test]
fn create_backup_reads_clock_and_draws_id() {
    let a = create_backup("/data/app", None, Platform::Other, CloudService::Local);
    let b = create_backup("/data/app", None, Platform::Other, CloudService::Local);
    assert!(a.filename.starts_with("salon_backup_"));
    assert!(a.filename.ends_with(".db"));
    assert_eq!(a.filename.len(), "salon_backup_20240301_235959.db".len());
    assert_eq!(a.id.len(), 36);
    assert_ne!(a.id, b.id);
    assert!(a.created_at > 1_700_000_000);
    assert!(a.folder.is_ok());
}

#[test]
fn create_local_backup() {
    let d = draft(CloudService::Local, Platform::Other);
    let (step, asked) = run_create(
        &d,
        vec![
            Reply::Probed(true),
            Reply::Finished(Ok(())),
            Reply::Finished(Ok(())),
            Reply::Measured(Ok(4096)),
        ],
    );
    assert_eq!(
        asked,
        vec![
            CreateAction::ProbeSource,
            CreateAction::EnsureFolder,
            CreateAction::CopySnapshot,
            CreateAction::Measure
        ]
    );
    assert_eq!(step, CreateStep::Done(CreateOutcome::Created(4096, None)));
    assert_eq!(create_action(&step), CreateAction::Finish);
    let created = create_result(d, CreateOutcome::Created(4096, None)).unwrap();
    assert_eq!(created.warning, None);
    assert_eq!(created.backup.size, 4096);
    assert_eq!(created.backup.filename, "salon_backup_20240301_235959.db");
    assert_eq!(created.backup.id, "id-1");
    assert_eq!(created.backup.service, CloudService::Local);
    assert_eq!(created.backup.created_at, 1_709_337_599);
}

#[test]
fn create_fails_without_source() {
    let d = draft(CloudService::Local, Platform::Other);
    let (step, _) = run_create(&d, vec![Reply::Probed(false)]);
    assert_eq!(step, CreateStep::Done(CreateOutcome::SourceMissing));
    let e = create_result(d, CreateOutcome::SourceMissing).unwrap_err();
    assert_eq!(e.kind, ErrorKind::NotFound);
    assert_eq!(e.message, "Source database does not exist");
}

#[test]
fn create_on_google_drive_writes_nothing() {
    let d = draft(CloudService::GoogleDrive, Platform::Macos);
    let (step, asked) = run_create(
        &d,
        vec![Reply::Probed(true), Reply::Finished(Ok(())), Reply::Measured(Ok(1))],
    );
    assert_eq!(
        asked,
        vec![CreateAction::ProbeSource, CreateAction::Finish, CreateAction::Finish]
    );
    match step {
        CreateStep::Done(outcome) => {
            let e = create_result(d, outcome).unwrap_err();
            assert_eq!(e.kind, ErrorKind::BackendUnavailable);
            assert_eq!(
                e.message,
                "Google Drive 백업은 아직 지원되지 않습니다. 추후 업데이트를 기다려주세요."
            );
        }
        other => panic!("not over: {:?}", other),
    }
}

#[test]
fn create_reports_file_failures() {
    let d = draft(CloudService::Local, Platform::Other);
    let (step, _) = run_create(&d, vec![Reply::Probed(true), Reply::Finished(Err("denied".to_string()))]);
    assert_eq!(step, CreateStep::Done(CreateOutcome::FolderFailed("denied".to_string())));
    let (step, _) = run_create(
        &d,
        vec![Reply::Probed(true), Reply::Finished(Ok(())), Reply::Finished(Err("full".to_string()))],
    );
    assert_eq!(step, CreateStep::Done(CreateOutcome::CopyFailed("full".to_string())));
    let (step, _) = run_create(
        &d,
        vec![
            Reply::Probed(true),
            Reply::Finished(Ok(())),
            Reply::Finished(Ok(())),
            Reply::Measured(Err("gone".to_string())),
        ],
    );
    assert_eq!(step, CreateStep::Done(CreateOutcome::MeasureFailed("gone".to_string())));
    let e = create_result(draft(CloudService::Local, Platform::Other), CreateOutcome::FolderFailed("denied".to_string())).unwrap_err();
    assert_eq!((e.kind, e.message.as_str()), (ErrorKind::IoFailure, "백업 디렉토리 생성 실패: denied"));
    let e = create_result(draft(CloudService::Local, Platform::Other), CreateOutcome::CopyFailed("full".to_string())).unwrap_err();
    assert_eq!((e.kind, e.message.as_str()), (ErrorKind::IoFailure, "Failed to copy database: full"));
    let e = create_result(d, CreateOutcome::MeasureFailed("gone".to_string())).unwrap_err();
    assert_eq!((e.kind, e.message.as_str()), (ErrorKind::IoFailure, "Failed to get metadata: gone"));
}

#[test]
fn create_synced_backup_uploads_and_sweeps() {
    let d = draft(CloudService::Icloud, Platform::Ios);
    let (step, asked) = run_create(
        &d,
        vec![
            Reply::Probed(true),
            Reply::Finished(Ok(())),
            Reply::Finished(Ok(())),
            Reply::Measured(Ok(10)),
            Reply::Uploaded(Ok("record-9".to_string())),
            Reply::Finished(Ok(())),
        ],
    );
    assert_eq!(asked[4..], [CreateAction::Upload, CreateAction::SweepRemote]);
    assert_eq!(step, CreateStep::Done(CreateOutcome::Created(10, None)));
}

#[test]
fn create_survives_failed_upload() {
    let d = draft(CloudService::Icloud, Platform::Ios);
    let (step, _) = run_create(
        &d,
        vec![
            Reply::Probed(true),
            Reply::Finished(Ok(())),
            Reply::Finished(Ok(())),
            Reply::Measured(Ok(10)),
            Reply::Uploaded(Err("offline".to_string())),
        ],
    );
    let warning = "CloudKit upload failed (local backup saved): offline".to_string();
    assert_eq!(step, CreateStep::Done(CreateOutcome::Created(10, Some(warning.clone()))));
    let created = create_result(d, CreateOutcome::Created(10, Some(warning.clone()))).unwrap();
    assert_eq!(created.backup.size, 10);
    assert_eq!(created.backup.service, CloudService::Icloud);
    assert_eq!(created.warning, Some(warning));
}

#[test]
fn create_survives_failed_sweep() {
    let d = draft(CloudService::Icloud, Platform::Ios);
    let step = create_step(&d, CreateStep::Sweeping(3), Reply::Finished(Err("quota".to_string())));
    assert_eq!(
        step,
        CreateStep::Done(CreateOutcome::Created(3, Some("CloudKit cleanup warning: quota".to_string())))
    );
    let step = create_step(&d, CreateStep::Uploading(3), Reply::Finished(Ok(())));
    assert_eq!(step, CreateStep::Uploading(3));
}

fn run_delete(mut state: DeleteState<String>, names: &mut Vec<String>, name: &str) -> DeleteOutcome<String> {
    loop {
        match state {
            DeleteState::Done(outcome) => return outcome,
            other => {
                let reply = match delete_action(&other) {
                    DeleteAction::ProbeBackup => Reply::Probed(names.iter().any(|n| n == name)),
                    DeleteAction::RemoveBackup => {
                        names.retain(|n| n != name);
                        Reply::Finished(Ok(()))
                    }
                    DeleteAction::DeleteRemote => Reply::Finished(Err("no such record".to_string())),
                    DeleteAction::Finish => unreachable!(),
                };
                state = delete_step(other, reply);
            }
        }
    }
}

#[test]
fn delete_then_delete_again() {
    let folder = get_backup_dir_for_service("/d", None, Platform::Other, &CloudService::Local);
    let mut names = vec!["a.db".to_string(), "b.db".to_string()];
    let first = run_delete(delete_backup(CloudService::Local, &folder), &mut names, "a.db");
    assert_eq!(first, DeleteOutcome::Deleted);
    assert_eq!(delete_result(first), Ok(()));
    assert_eq!(names, vec!["b.db"]);
    let second = run_delete(delete_backup(CloudService::Local, &folder), &mut names, "a.db");
    assert_eq!(second, DeleteOutcome::NotFound);
    let e = delete_result(second).unwrap_err();
    assert_eq!(e.kind, ErrorKind::NotFound);
    assert_eq!(e.message, "Backup file not found");
    assert_eq!(names, vec!["b.db"]);
}

#[test]
fn delete_failures() {
    let state = delete_step(DeleteState::Removing, Reply::Finished(Err("busy".to_string())));
    assert_eq!(state, DeleteState::Done(DeleteOutcome::RemoveFailed("busy".to_string())));
    let e = delete_result(DeleteOutcome::RemoveFailed("busy".to_string())).unwrap_err();
    assert_eq!((e.kind, e.message.as_str()), (ErrorKind::IoFailure, "Failed to delete backup: busy"));
    let folder = get_backup_dir_for_service("/d", None, Platform::Other, &CloudService::GoogleDrive);
    let state = delete_backup(CloudService::GoogleDrive, &folder);
    match state {
        DeleteState::Done(outcome) => {
            assert_eq!(delete_result(outcome).unwrap_err().kind, ErrorKind::BackendUnavailable)
        }
        other => panic!("not over: {:?}", other),
    }
    assert_eq!(delete_step(DeleteState::Probing, Reply::Finished(Ok(()))), DeleteState::Probing);
}

#[test]
fn delete_of_synced_backup_asks_the_remote_store() {
    let folder = get_backup_dir_for_service("/d", Some("/h"), Platform::Ios, &CloudService::Icloud);
    let state = delete_backup(CloudService::Icloud, &folder);
    assert_eq!(delete_action(&state), DeleteAction::DeleteRemote);
    let mut names = vec!["a.db".to_string()];
    let outcome = run_delete(state, &mut names, "a.db");
    assert_eq!(outcome, DeleteOutcome::RemoteFailed("no such record".to_string()));
    let e = delete_result(outcome).unwrap_err();
    assert_eq!((e.kind, e.message.as_str()), (ErrorKind::BackendUnavailable, "no such record"));
    assert_eq!(names, vec!["a.db"]);
    let done = delete_step(DeleteState::RemovingRemote, Reply::Finished(Ok(())));
    assert_eq!(done, DeleteState::Done(DeleteOutcome::Deleted));
}
