//! The storage backends a backup can live on, and how a selector string names one.

use vstd::prelude::*;
use vstd::string::*;
use crate::error::{BackupError, ErrorKind, Failure};
use crate::text::{joined, same_text};

verus! {

/// Where a backup is stored.
#[derive(Debug, Clone, Copy, PartialEq, Eq, Structural)]
pub enum CloudService {
    Icloud,
    GoogleDrive,
    Local,
}

/// The lower-case form of a string, as `str::to_lowercase` computes it.
pub uninterp spec fn lowercase_of(s: Seq<char>) -> Seq<char>;

/// Calls `str::to_lowercase`. The result is only named: nothing is claimed of
/// which characters it holds.
#[verifier::external_body]
fn to_lowercase(s: &str) -> (r: String)
    ensures
        r@ == lowercase_of(s@),
{
    s.to_lowercase()
}

/// The backend that a lower-case selector names, if any.
pub open spec fn service_named(lower: Seq<char>) -> Option<CloudService> {
    if lower == "icloud"@ {
        Some(CloudService::Icloud)
    } else if lower == "google_drive"@ || lower == "googledrive"@ {
        Some(CloudService::GoogleDrive)
    } else if lower == "local"@ {
        Some(CloudService::Local)
    } else {
        None
    }
}

/// The failure for a selector that names no backend.
pub open spec fn invalid_service(service: Seq<char>) -> Failure {
    Failure { kind: ErrorKind::ValidationFailure, message: "Invalid cloud service: "@ + service }
}

/// Picks the backend for a selector already put in lower case. `service` is the
/// selector as the caller wrote it, quoted in the error.
pub fn cloud_service_from_lowercase(
    lower: &str,
    service: &str,
) -> (r: Result<CloudService, BackupError>)
    ensures
        match service_named(lower@) {
            Some(s) => r == Ok::<CloudService, BackupError>(s),
            None => r is Err && r->Err_0@ == invalid_service(service@),
        },
{
    if same_text(lower, "icloud") {
        Ok(CloudService::Icloud)
    } else if same_text(lower, "google_drive") || same_text(lower, "googledrive") {
        Ok(CloudService::GoogleDrive)
    } else if same_text(lower, "local") {
        Ok(CloudService::Local)
    } else {
        Err(BackupError::new(ErrorKind::ValidationFailure, joined("Invalid cloud service: ", service)))
    }
}

/// Reads a backend selector, ignoring case.
pub fn parse_cloud_service(service: &str) -> (r: Result<CloudService, BackupError>)
    ensures
        match service_named(lowercase_of(service@)) {
            Some(s) => r == Ok::<CloudService, BackupError>(s),
            None => r is Err && r->Err_0@ == invalid_service(service@),
        },
{
    let lower = to_lowercase(service);
    cloud_service_from_lowercase(lower.as_str(), service)
}

} // verus!
