use sisters_salon::cloudkit::{
    delete_cloudkit_backup, download_cloudkit_backup, is_cloudkit_available, is_icloud_available,
    list_cloudkit_backups, read_remote_call, upload_to_cloudkit, Argument, RemoteCall, RemoteOp,
};
use sisters_salon::directory::Platform;
use sisters_salon::error::ErrorKind;
use sisters_salon::record::BackupInfo;
use sisters_salon::remote::{
    remote_backup,
    cleanup_old_cloudkit_backups, list_cloudkit_backups_as_info, backups_from_parsed,
    surplus_from_parsed, MAX_CLOUDKIT_BACKUPS,
};
use sisters_salon::service::CloudService;

#[test]
fn remote_listing_keeps_the_order_of_the_store() {
    let json = r#"[
        {"id":"r1","filename":"salon_backup_1.db","size":100,"createdAt":"2024-03-01T10:00:00Z"},
        {"id":"r3","filename":"salon_backup_3.db","size":300,"createdAt":"2024-03-03T10:00:00+09:00"},
        {"id":"r2","filename":"salon_backup_2.db","size":200,"createdAt":"2024-03-02T10:00:00Z"}
    ]"#;
    let listed = list_cloudkit_backups_as_info(json, 5).unwrap();
    let ids: Vec<&str> = listed.iter().map(|b| b.id.as_str()).collect();
    assert_eq!(ids, vec!["r1", "r3", "r2"]);
    assert_eq!(listed[1].created_at, 1_709_427_600);
    assert_eq!(listed[0].created_at, 1_709_287_200);
    assert_eq!(listed[2].size, 200);
    assert_eq!(listed[2].filename, "salon_backup_2.db");
    assert!(listed.iter().all(|b| b.service == CloudService::Icloud));
}

#[test]
fn remote_listing_keeps_records_of_one_second_in_place() {
    let json = r#"[
        {"id":"a","filename":"a.db","createdAt":"2024-03-01T10:00:00Z"},
        {"id":"b","filename":"b.db","createdAt":"2024-03-01T10:00:00.700Z"},
        {"id":"c","filename":"c.db"}
    ]"#;
    let listed = list_cloudkit_backups_as_info(json, 9_999_999_999).unwrap();
    let names: Vec<&str> = listed.iter().map(|b| b.filename.as_str()).collect();
    assert_eq!(names, vec!["a.db", "b.db", "c.db"]);
    assert_eq!(listed[0].created_at, listed[1].created_at);
    assert_eq!(listed[2].created_at, 9_999_999_999);
}

#[test]
fn remote_listing_fills_gaps() {
    let json = r#"[{"id":"only-id"}, {"filename":"f.db","size":-4,"createdAt":""},
        {"id":7,"filename":null,"size":"9","createdAt":"yesterday"}, 42, {"size":18446744073709551615}]"#;
    let listed = list_cloudkit_backups_as_info(json, 1234).unwrap();
    assert!(listed.iter().all(|b| b.created_at == 1234));
    let by_name: Vec<(&str, &str, u64)> =
        listed.iter().map(|b| (b.id.as_str(), b.filename.as_str(), b.size)).collect();
    assert_eq!(
        by_name,
        vec![("only-id", "only-id", 0), ("", "f.db", 0), ("", "", 0), ("", "", 0), ("", "", u64::MAX)]
    );
}

#[test]
fn remote_listing_of_nothing() {
    assert_eq!(list_cloudkit_backups_as_info("[]", 0), Ok(vec![]));
    assert_eq!(list_cloudkit_backups_as_info(" [ ] ", 0), Ok(vec![]));
}

#[test]
fn remote_listing_that_is_no_array() {
    for text in ["", "{", "{\"id\":\"r1\"}", "[1,", "null"] {
        let e = list_cloudkit_backups_as_info(text, 0).unwrap_err();
        assert_eq!(e.kind, ErrorKind::IoFailure);
        assert!(e.message.starts_with("JSON 파싱 오류: "), "{}", e.message);
        assert!(e.message.len() > "JSON 파싱 오류: ".len());
        let c = cleanup_old_cloudkit_backups(text).unwrap_err();
        assert_eq!(c.message, e.message);
    }
}

#[test]
fn parsed_failure_is_prefixed() {
    let e = backups_from_parsed(Err("bad".to_string()), 0).unwrap_err();
    assert_eq!((e.kind, e.message.as_str()), (ErrorKind::IoFailure, "JSON 파싱 오류: bad"));
    let e = surplus_from_parsed(Err("bad".to_string())).unwrap_err();
    assert_eq!((e.kind, e.message.as_str()), (ErrorKind::IoFailure, "JSON 파싱 오류: bad"));
    assert_eq!(backups_from_parsed(Ok(vec![]), 0), Ok(vec![]));
    assert_eq!(surplus_from_parsed(Ok(vec![])), Ok(vec![]));
}

fn listing_of(count: usize) -> String {
    let items: Vec<String> = (0..count).map(|i| format!("{{\"id\":\"r{}\"}}", i)).collect();
    format!("[{}]", items.join(","))
}

#[test]
fn remote_sweep_keeps_ten() {
    assert_eq!(MAX_CLOUDKIT_BACKUPS, 10);
    assert_eq!(cleanup_old_cloudkit_backups(&listing_of(0)), Ok(vec![]));
    assert_eq!(cleanup_old_cloudkit_backups(&listing_of(10)), Ok(vec![]));
    assert_eq!(cleanup_old_cloudkit_backups(&listing_of(11)), Ok(vec!["r10".to_string()]));
    assert_eq!(
        cleanup_old_cloudkit_backups(&listing_of(13)),
        Ok(vec!["r10".to_string(), "r11".to_string(), "r12".to_string()])
    );
}

#[test]
fn remote_sweep_skips_records_without_id() {
    let mut items: Vec<String> = (0..10).map(|i| format!("{{\"id\":\"r{}\"}}", i)).collect();
    items.push("{\"filename\":\"no id\"}".to_string());
    items.push("{\"id\":12}".to_string());
    items.push("{\"id\":\"last\"}".to_string());
    let json = format!("[{}]", items.join(","));
    assert_eq!(cleanup_old_cloudkit_backups(&json), Ok(vec!["last".to_string()]));
}

#[test]
fn remote_store_is_ios_only() {
    for platform in [Platform::Macos, Platform::Other] {
        let e = "CloudKit은 iOS에서만 사용할 수 있습니다.".to_string();
        assert_eq!(upload_to_cloudkit(platform, RemoteCall::Succeeded(Some("r".to_string()))), Err(e.clone()));
        assert_eq!(list_cloudkit_backups(platform, RemoteCall::Succeeded(None)), Err(e.clone()));
        assert_eq!(delete_cloudkit_backup(platform, RemoteCall::Succeeded(None)), Err(e.clone()));
        assert_eq!(download_cloudkit_backup(platform, RemoteCall::NotLoaded), Err(e));
    }
}

#[test]
fn remote_upload_replies() {
    let ios = Platform::Ios;
    assert_eq!(upload_to_cloudkit(ios, RemoteCall::Succeeded(Some("rec".to_string()))), Ok("rec".to_string()));
    assert_eq!(upload_to_cloudkit(ios, RemoteCall::Succeeded(None)), Ok("unknown".to_string()));
    assert_eq!(upload_to_cloudkit(ios, RemoteCall::Refused(Some("quota".to_string()))), Err("quota".to_string()));
    assert_eq!(upload_to_cloudkit(ios, RemoteCall::Refused(None)), Err("알 수 없는 오류".to_string()));
    assert_eq!(
        upload_to_cloudkit(ios, RemoteCall::NotLoaded),
        Err("CloudKit 함수를 로드할 수 없습니다. Swift 파일이 프로젝트에 추가되었는지 확인하세요.".to_string())
    );
    assert_eq!(
        upload_to_cloudkit(ios, RemoteCall::BadArgument(Argument::LocalPath, "nul byte".to_string())),
        Err("Invalid path: nul byte".to_string())
    );
}

#[test]
fn remote_list_delete_download_replies() {
    let ios = Platform::Ios;
    assert_eq!(list_cloudkit_backups(ios, RemoteCall::Succeeded(None)), Ok("[]".to_string()));
    assert_eq!(list_cloudkit_backups(ios, RemoteCall::Succeeded(Some("[1]".to_string()))), Ok("[1]".to_string()));
    assert_eq!(list_cloudkit_backups(ios, RemoteCall::Missing), Err("목록 함수를 찾을 수 없습니다.".to_string()));
    assert_eq!(list_cloudkit_backups(ios, RemoteCall::NotLoaded), Err("CloudKit 함수를 로드할 수 없습니다.".to_string()));
    assert_eq!(delete_cloudkit_backup(ios, RemoteCall::Succeeded(None)), Ok(()));
    assert_eq!(delete_cloudkit_backup(ios, RemoteCall::Missing), Err("삭제 함수를 찾을 수 없습니다.".to_string()));
    assert_eq!(delete_cloudkit_backup(ios, RemoteCall::Refused(None)), Err("알 수 없는 오류".to_string()));
    assert_eq!(
        delete_cloudkit_backup(ios, RemoteCall::BadArgument(Argument::RecordId, "nul".to_string())),
        Err("Invalid record ID: nul".to_string())
    );
    assert_eq!(download_cloudkit_backup(ios, RemoteCall::Succeeded(Some("x".to_string()))), Ok(()));
    assert_eq!(download_cloudkit_backup(ios, RemoteCall::Missing), Err("다운로드 함수를 찾을 수 없습니다.".to_string()));
    assert_eq!(
        download_cloudkit_backup(ios, RemoteCall::BadArgument(Argument::DestinationPath, "nul".to_string())),
        Err("Invalid destination path: nul".to_string())
    );
    assert_eq!(read_remote_call(ios, RemoteOp::Delete, RemoteCall::Succeeded(None)), Ok(String::new()));
}

#[test]
fn remote_availability() {
    assert!(is_cloudkit_available(Platform::Ios, Some(true)));
    assert!(is_cloudkit_available(Platform::Macos, Some(true)));
    assert!(!is_cloudkit_available(Platform::Other, Some(true)));
    assert!(!is_cloudkit_available(Platform::Ios, Some(false)));
    assert!(!is_cloudkit_available(Platform::Ios, None));
    assert!(!is_cloudkit_available(Platform::Macos, None));
    assert!(is_icloud_available(Platform::Ios, Some(true)));
    assert!(!is_icloud_available(Platform::Other, None));
}

#[test]
fn remote_backup_from_members() {
    let full = remote_backup(Some("r1".to_string()), Some("f.db".to_string()), Some(9), Some(50), 7);
    assert_eq!(
        full,
        BackupInfo {
            id: "r1".to_string(),
            service: CloudService::Icloud,
            filename: "f.db".to_string(),
            size: 9,
            created_at: 50,
        }
    );
    let bare = remote_backup(None, None, None, None, 7);
    assert_eq!(
        bare,
        BackupInfo {
            id: String::new(),
            service: CloudService::Icloud,
            filename: String::new(),
            size: 0,
            created_at: 7,
        }
    );
    let named_by_id = remote_backup(Some("r2".to_string()), None, None, Some(-3), 7);
    assert_eq!(named_by_id.filename, "r2");
    assert_eq!(named_by_id.created_at, -3);
}
