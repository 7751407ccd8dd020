//! Where the backups of each backend are kept on disk.

use vstd::prelude::*;
use vstd::string::*;
use crate::error::{BackupError, ErrorKind, Failure};
use crate::service::CloudService;
use crate::text::{joined, slice_texts, texts};

verus! {

/// The kind of machine the application runs on, as far as backup folders differ.
#[derive(Debug, Clone, Copy, PartialEq, Eq, Structural)]
pub enum Platform {
    Ios,
    Macos,
    Other,
}

/// A backup folder: a starting directory and the folder names to descend from it.
#[derive(Debug, PartialEq, Eq)]
pub struct BackupDir {
    pub base: String,
    pub segments: Vec<String>,
}

/// A `BackupDir` as a mathematical value.
pub struct BackupDirPath {
    pub base: Seq<char>,
    pub segments: Seq<Seq<char>>,
}

impl View for BackupDir {
    type V = BackupDirPath;

    open spec fn view(&self) -> BackupDirPath {
        BackupDirPath { base: self.base@, segments: texts(self.segments@) }
    }
}

/// The folder inside the application's data directory.
pub open spec fn local_segments() -> Seq<Seq<char>> {
    seq!["backups"@]
}

/// The folder shown in the Files app on iOS, below the home directory.
pub open spec fn ios_segments() -> Seq<Seq<char>> {
    seq!["Documents"@, "Backups"@]
}

/// The folder inside iCloud Drive on macOS, below the home directory.
pub open spec fn macos_segments() -> Seq<Seq<char>> {
    seq!["Library"@, "Mobile Documents"@, "com~apple~CloudDocs"@, "SistersSalon"@, "backups"@]
}

/// The failure for the backend that is not implemented.
pub open spec fn google_drive_unsupported() -> Failure {
    Failure {
        kind: ErrorKind::BackendUnavailable,
        message: "Google Drive 백업은 아직 지원되지 않습니다. 추후 업데이트를 기다려주세요."@,
    }
}

/// The failure for a synced folder that hangs below an unknown home directory.
pub open spec fn home_unknown() -> Failure {
    Failure { kind: ErrorKind::IoFailure, message: "Could not get HOME directory"@ }
}

/// The backup folder of a backend: inside the application's data directory for
/// local backups and wherever no synced drive exists, below the home directory
/// for the synced drive on Apple platforms, and none for Google Drive.
pub open spec fn backup_dir_of(
    app_data_dir: Seq<char>,
    home: Option<Seq<char>>,
    platform: Platform,
    service: CloudService,
) -> Result<BackupDirPath, Failure> {
    match service {
        CloudService::GoogleDrive => Err(google_drive_unsupported()),
        CloudService::Local => Ok(BackupDirPath { base: app_data_dir, segments: local_segments() }),
        CloudService::Icloud => match platform {
            Platform::Other => Ok(
                BackupDirPath { base: app_data_dir, segments: local_segments() },
            ),
            Platform::Ios => match home {
                Some(h) => Ok(BackupDirPath { base: h, segments: ios_segments() }),
                None => Err(home_unknown()),
            },
            Platform::Macos => match home {
                Some(h) => Ok(BackupDirPath { base: h, segments: macos_segments() }),
                None => Err(home_unknown()),
            },
        },
    }
}

/// The failure for a backup folder that is missing and cannot be made.
pub open spec fn folder_not_made(why: Seq<char>) -> Failure {
    Failure { kind: ErrorKind::IoFailure, message: "백업 디렉토리 생성 실패: "@ + why }
}

/// The characters of an optional string slice.
pub open spec fn slice_text(s: Option<&str>) -> Option<Seq<char>> {
    match s {
        Some(t) => Some(t@),
        None => None,
    }
}

/// What a `Result` of this module stands for.
pub open spec fn dir_result(r: Result<BackupDir, BackupError>) -> Result<BackupDirPath, Failure> {
    match r {
        Ok(d) => Ok(d@),
        Err(e) => Err(e@),
    }
}

fn folder(base: &str, names: Vec<&str>) -> (dir: BackupDir)
    ensures
        dir@.base == base@,
        dir@.segments == slice_texts(names@),
{
    let mut segments: Vec<String> = Vec::new();
    let mut i: usize = 0;
    while i < names.len()
        invariant
            i <= names.len(),
            segments@.len() == i,
            texts(segments@) == slice_texts(names@.subrange(0, i as int)),
        decreases names.len() - i,
    {
        let ghost before = segments@;
        segments.push(String::from_str(names[i]));
        proof {
            let done = names@.subrange(0, i as int);
            let next = names@.subrange(0, i + 1);
            assert(texts(segments@).len() == slice_texts(next).len());
            assert forall|k: int| 0 <= k < segments@.len() implies texts(segments@)[k]
                == slice_texts(next)[k] by {
                if k < i {
                    assert(texts(before)[k] == slice_texts(done)[k]);
                }
            }
            assert(texts(segments@) =~= slice_texts(next));
        }
        i = i + 1;
    }
    assert(names@.subrange(0, i as int) =~= names@);
    BackupDir { base: String::from_str(base), segments }
}

/// Finds the backup folder of a backend. The caller creates it if it is missing.
pub fn get_backup_dir_for_service(
    app_data_dir: &str,
    home: Option<&str>,
    platform: Platform,
    service: &CloudService,
) -> (r: Result<BackupDir, BackupError>)
    ensures
        dir_result(r) == backup_dir_of(app_data_dir@, slice_text(home), platform, *service),
{
    let synced = match service {
        CloudService::GoogleDrive => {
            return Err(
                BackupError::new(
                    ErrorKind::BackendUnavailable,
                    String::from_str(
                        "Google Drive 백업은 아직 지원되지 않습니다. 추후 업데이트를 기다려주세요.",
                    ),
                ),
            );
        },
        CloudService::Local => false,
        CloudService::Icloud => match platform {
            Platform::Other => false,
            _ => true,
        },
    };
    if !synced {
        let dir = folder(app_data_dir, vec!["backups"]);
        assert(dir@.segments =~= local_segments());
        return Ok(dir);
    }
    match home {
        None => Err(
            BackupError::new(
                ErrorKind::IoFailure,
                String::from_str("Could not get HOME directory"),
            ),
        ),
        Some(h) => match platform {
            Platform::Ios => {
                let dir = folder(h, vec!["Documents", "Backups"]);
                assert(dir@.segments =~= ios_segments());
                Ok(dir)
            },
            _ => {
                let dir = folder(
                    h,
                    vec![
                        "Library",
                        "Mobile Documents",
                        "com~apple~CloudDocs",
                        "SistersSalon",
                        "backups",
                    ],
                );
                assert(dir@.segments =~= macos_segments());
                Ok(dir)
            },
        },
    }
}

/// The failure to report when the backup folder could not be made, for the
/// reason the file system gave.
pub fn folder_failure(why: &str) -> (e: BackupError)
    ensures
        e@ == folder_not_made(why@),
{
    BackupError::new(ErrorKind::IoFailure, joined("백업 디렉토리 생성 실패: ", why))
}

/// What a backup folder is worth once the caller has tried to make it: the
/// folder if it is there now, an I/O failure with the file system's reason if
/// it could not be made.
pub open spec fn folder_once_made(
    dir: BackupDirPath,
    made: Result<(), Seq<char>>,
) -> Result<BackupDirPath, Failure> {
    match made {
        Ok(_) => Ok(dir),
        Err(why) => Err(folder_not_made(why)),
    }
}

/// Settles a backup folder after the caller has tried to make it, with its
/// parents, where it was missing. `made` is what the file system said.
pub fn ensure_backup_dir(
    dir: BackupDir,
    made: Result<(), String>,
) -> (r: Result<BackupDir, BackupError>)
    ensures
        dir_result(r) == folder_once_made(
            dir@,
            match made {
                Ok(_) => Ok(()),
                Err(why) => Err(why@),
            },
        ),
{
    match made {
        Ok(_) => Ok(dir),
        Err(why) => Err(folder_failure(why.as_str())),
    }
}

/// The folder of local backups.
pub fn get_backup_dir(app_data_dir: &str) -> (r: Result<BackupDir, BackupError>)
    ensures
        r is Ok,
        r->Ok_0@ == (BackupDirPath { base: app_data_dir@, segments: local_segments() }),
{
    get_backup_dir_for_service(app_data_dir, None, Platform::Other, &CloudService::Local)
}

} // verus!
