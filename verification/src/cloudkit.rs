//! The remote store behind the synced backend: where it can be reached, and
//! how what its bridge reports is read. The caller makes the calls.

use vstd::prelude::*;
use vstd::string::*;
use crate::directory::Platform;
use crate::text::joined;

verus! {

/// An operation of the remote store.
#[derive(Debug, Clone, Copy, PartialEq, Eq, Structural)]
pub enum RemoteOp {
    Upload,
    List,
    Delete,
    Download,
}

/// An argument handed to the remote store.
#[derive(Debug, Clone, Copy, PartialEq, Eq, Structural)]
pub enum Argument {
    LocalPath,
    RecordId,
    DestinationPath,
}

/// What calling the bridge to the remote store gave.
#[derive(Debug, PartialEq, Eq)]
pub enum RemoteCall {
    /// The bridge could not be loaded.
    NotLoaded,
    /// The bridge is loaded and lacks the function for this operation.
    Missing,
    /// An argument cannot be passed to the bridge; the text says why.
    BadArgument(Argument, String),
    /// The call succeeded, with the text the bridge gave, if it gave any.
    Succeeded(Option<String>),
    /// The call failed, with the bridge's last error, if it has one.
    Refused(Option<String>),
}

/// Told on every platform but iOS.
pub open spec fn ios_only() -> Seq<char> {
    "CloudKit은 iOS에서만 사용할 수 있습니다."@
}

/// Told when the bridge could not be loaded.
pub open spec fn not_loaded(op: RemoteOp) -> Seq<char> {
    if op == RemoteOp::Upload {
        "CloudKit 함수를 로드할 수 없습니다. Swift 파일이 프로젝트에 추가되었는지 확인하세요."@
    } else {
        "CloudKit 함수를 로드할 수 없습니다."@
    }
}

/// Told when the bridge lacks the function for an operation.
pub open spec fn missing_function(op: RemoteOp) -> Seq<char> {
    match op {
        RemoteOp::Upload => not_loaded(RemoteOp::Upload),
        RemoteOp::List => "목록 함수를 찾을 수 없습니다."@,
        RemoteOp::Delete => "삭제 함수를 찾을 수 없습니다."@,
        RemoteOp::Download => "다운로드 함수를 찾을 수 없습니다."@,
    }
}

/// Told when an argument cannot be passed.
pub open spec fn bad_argument(which: Argument, why: Seq<char>) -> Seq<char> {
    match which {
        Argument::LocalPath => "Invalid path: "@ + why,
        Argument::RecordId => "Invalid record ID: "@ + why,
        Argument::DestinationPath => "Invalid destination path: "@ + why,
    }
}

/// What stands for a success about which the bridge says nothing: an upload's
/// record id is then unknown, a listing empty.
pub open spec fn silent_success(op: RemoteOp) -> Seq<char> {
    match op {
        RemoteOp::Upload => "unknown"@,
        RemoteOp::List => "[]"@,
        _ => Seq::empty(),
    }
}

/// Told when the bridge fails without a reason.
pub open spec fn unknown_error() -> Seq<char> {
    "알 수 없는 오류"@
}

/// What an operation of the remote store comes to: a failure off iOS, since
/// the store is reachable there only, else what the call to the bridge gave.
pub open spec fn remote_reply(
    platform: Platform,
    op: RemoteOp,
    call: RemoteCall,
) -> Result<Seq<char>, Seq<char>> {
    if platform != Platform::Ios {
        Err(ios_only())
    } else {
        match call {
            RemoteCall::NotLoaded => Err(not_loaded(op)),
            RemoteCall::Missing => Err(missing_function(op)),
            RemoteCall::BadArgument(which, why) => Err(bad_argument(which, why@)),
            RemoteCall::Succeeded(Some(text)) => Ok(text@),
            RemoteCall::Succeeded(None) => Ok(silent_success(op)),
            RemoteCall::Refused(Some(why)) => Err(why@),
            RemoteCall::Refused(None) => Err(unknown_error()),
        }
    }
}

/// The characters of a result of text.
pub open spec fn reply_view(r: Result<String, String>) -> Result<Seq<char>, Seq<char>> {
    match r {
        Ok(t) => Ok(t@),
        Err(why) => Err(why@),
    }
}

/// The characters of a result without a value.
pub open spec fn unit_reply_view(r: Result<(), String>) -> Result<(), Seq<char>> {
    match r {
        Ok(_) => Ok(()),
        Err(why) => Err(why@),
    }
}

/// A reply without its text.
pub open spec fn without_text(r: Result<Seq<char>, Seq<char>>) -> Result<(), Seq<char>> {
    match r {
        Ok(_) => Ok(()),
        Err(why) => Err(why),
    }
}

/// Reads what an operation of the remote store came to.
pub fn read_remote_call(
    platform: Platform,
    op: RemoteOp,
    call: RemoteCall,
) -> (r: Result<String, String>)
    ensures
        reply_view(r) == remote_reply(platform, op, call),
{
    if platform != Platform::Ios {
        return Err(String::from_str("CloudKit은 iOS에서만 사용할 수 있습니다."));
    }
    match call {
        RemoteCall::NotLoaded => {
            if op == RemoteOp::Upload {
                Err(
                    String::from_str(
                        "CloudKit 함수를 로드할 수 없습니다. Swift 파일이 프로젝트에 추가되었는지 확인하세요.",
                    ),
                )
            } else {
                Err(String::from_str("CloudKit 함수를 로드할 수 없습니다."))
            }
        },
        RemoteCall::Missing => match op {
            RemoteOp::Upload => Err(
                String::from_str(
                    "CloudKit 함수를 로드할 수 없습니다. Swift 파일이 프로젝트에 추가되었는지 확인하세요.",
                ),
            ),
            RemoteOp::List => Err(String::from_str("목록 함수를 찾을 수 없습니다.")),
            RemoteOp::Delete => Err(String::from_str("삭제 함수를 찾을 수 없습니다.")),
            RemoteOp::Download => Err(String::from_str("다운로드 함수를 찾을 수 없습니다.")),
        },
        RemoteCall::BadArgument(which, why) => match which {
            Argument::LocalPath => Err(joined("Invalid path: ", why.as_str())),
            Argument::RecordId => Err(joined("Invalid record ID: ", why.as_str())),
            Argument::DestinationPath => Err(joined("Invalid destination path: ", why.as_str())),
        },
        RemoteCall::Succeeded(text) => match text {
            Some(t) => Ok(t),
            None => match op {
                RemoteOp::Upload => Ok(String::from_str("unknown")),
                RemoteOp::List => Ok(String::from_str("[]")),
                _ => Ok(String::new()),
            },
        },
        RemoteCall::Refused(why) => match why {
            Some(w) => Err(w),
            None => Err(String::from_str("알 수 없는 오류")),
        },
    }
}

/// Whether the remote store can be used: on iOS if its bridge says so, on
/// macOS if the synced drive's folder is there, nowhere else. `probe` is what
/// the platform's check gave, `None` where it could not be made.
pub fn is_cloudkit_available(platform: Platform, probe: Option<bool>) -> (r: bool)
    ensures
        r == (platform != Platform::Other && probe == Some(true)),
{
    match platform {
        Platform::Other => false,
        _ => match probe {
            Some(found) => found,
            None => false,
        },
    }
}

/// Whether the synced backend can be offered to the user.
pub fn is_icloud_available(platform: Platform, probe: Option<bool>) -> (r: bool)
    ensures
        r == (platform != Platform::Other && probe == Some(true)),
{
    is_cloudkit_available(platform, probe)
}

/// The id of the record that an upload made, or why there is none.
pub fn upload_to_cloudkit(platform: Platform, call: RemoteCall) -> (r: Result<String, String>)
    ensures
        reply_view(r) == remote_reply(platform, RemoteOp::Upload, call),
{
    read_remote_call(platform, RemoteOp::Upload, call)
}

/// The JSON listing of the remote store, or why there is none.
pub fn list_cloudkit_backups(platform: Platform, call: RemoteCall) -> (r: Result<String, String>)
    ensures
        reply_view(r) == remote_reply(platform, RemoteOp::List, call),
{
    read_remote_call(platform, RemoteOp::List, call)
}

/// Whether a record was deleted from the remote store, or why not.
pub fn delete_cloudkit_backup(platform: Platform, call: RemoteCall) -> (r: Result<(), String>)
    ensures
        unit_reply_view(r) == without_text(remote_reply(platform, RemoteOp::Delete, call)),
{
    match read_remote_call(platform, RemoteOp::Delete, call) {
        Ok(_) => Ok(()),
        Err(why) => Err(why),
    }
}

/// Whether a record was fetched from the remote store, or why not.
pub fn download_cloudkit_backup(platform: Platform, call: RemoteCall) -> (r: Result<(), String>)
    ensures
        unit_reply_view(r) == without_text(remote_reply(platform, RemoteOp::Download, call)),
{
    match read_remote_call(platform, RemoteOp::Download, call) {
        Ok(_) => Ok(()),
        Err(why) => Err(why),
    }
}

} // verus!
