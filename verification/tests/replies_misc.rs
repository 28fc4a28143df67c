use geek_storage::config::{expiry_cutoff, Settings};
use geek_storage::digest::finish_hex;
use geek_storage::info::{estimated_max_files, ServerInfo};
use geek_storage::replies::Failure;
use geek_storage::text::same_text;
use sha2::{Digest, Sha256};

#[test]
fn failure_statuses() {
    assert_eq!(Failure::NotAllowed.status(), 401);
    assert_eq!(Failure::NotFound.status(), 404);
    assert_eq!(Failure::CheckFailed.status(), 500);
    assert_eq!(Failure::DeleteFailed.status(), 500);
    assert_eq!(Failure::ReadFailed.status(), 500);
    assert_eq!(Failure::UploadFailed.status(), 500);
    assert_eq!(Failure::FormRejected.status(), 400);
    assert_eq!(Failure::BadForm.status(), 400);
    assert_eq!(Failure::BadFileData.status(), 400);
    assert_eq!(Failure::TooLarge { limit_mb: 10 }.status(), 413);
    assert_eq!(Failure::StorageFull.status(), 500);
    assert_eq!(Failure::BadLinkField.status(), 400);
    assert_eq!(Failure::DownloadFailed.status(), 502);
    assert_eq!(Failure::NothingSent.status(), 400);
}

#[test]
fn failure_messages() {
    assert_eq!(Failure::NotAllowed.message(), "You are not allowed to use this!");
    assert_eq!(Failure::NotFound.message(), "This file does not exist!");
    assert_eq!(Failure::CheckFailed.message(), "Failed checking for file");
    assert_eq!(Failure::DeleteFailed.message(), "Failed deleting file");
    assert_eq!(Failure::ReadFailed.message(), "Failed reading file");
    assert_eq!(Failure::UploadFailed.message(), "Failed uploading your file");
    assert_eq!(Failure::FormRejected.message(), "Invalid/missing multipart form data");
    assert_eq!(Failure::BadForm.message(), "Invalid or missing multipart form data");
    assert_eq!(Failure::BadFileData.message(), "Failed reading uploaded file data");
    assert_eq!(
        Failure::TooLarge { limit_mb: 10 }.message(),
        "File exceeds the maximum file size limit of 10 megabytes"
    );
    assert_eq!(
        Failure::TooLarge { limit_mb: 0 }.message(),
        "File exceeds the maximum file size limit of 0 megabytes"
    );
    assert_eq!(Failure::StorageFull.message(), "The server is completely full!");
    assert_eq!(Failure::BadLinkField.message(), "Failed reading the link field");
    assert_eq!(Failure::DownloadFailed.message(), "Failed downloading from the link supplied");
    assert_eq!(Failure::NothingSent.message(), "Please send either a file or a link");
}

#[test]
fn hex_digest_of_nothing() {
    assert_eq!(
        finish_hex(Sha256::new()),
        "e3b0c44298fc1c149afbf4c8996fb92427ae41e4649b934ca495991b7852b855"
    );
}

#[test]
fn hex_digest_of_fed_bytes() {
    let mut h = Sha256::new();
    h.update(b"hello world");
    assert_eq!(
        finish_hex(h),
        "b94d27b9934d3e08a52e52d7da7dabfac484efe37a5380ee9088f7ace2efcde9"
    );
}

#[test]
fn same_text_compares_characters() {
    assert!(same_text("file", "file"));
    assert!(!same_text("file", "File"));
    assert!(!same_text("file", "files"));
    assert!(same_text("", ""));
    assert!(same_text("héllo", "héllo"));
}

#[test]
fn estimate_of_storable_files() {
    assert_eq!(estimated_max_files(1000, 2, 100), Some(20));
    assert_eq!(estimated_max_files(1000, 3, 100), Some(30));
    assert_eq!(estimated_max_files(0, 2, 100), Some(0));
    assert_eq!(estimated_max_files(1000, 0, 0), None);
    assert_eq!(estimated_max_files(1000, 5, 0), None);
    // Three files of sizes 0, 0 and 1 average below one byte: no estimate, no crash.
    assert_eq!(estimated_max_files(1000, 3, 1), None);
}

#[test]
fn server_info_report() {
    let info = ServerInfo::new(10737418240, 4, 4096);
    assert_eq!(info.max_files, Some(10485760));
    assert_eq!(info.total_files, 4);
    assert_eq!(info.max_size, 10737418240);
    assert_eq!(info.total_size, 4096);
    let empty = ServerInfo::new(0, 0, 0);
    assert_eq!(empty.max_files, None);
    let tiny = ServerInfo::new(100, 3, 1);
    assert_eq!((tiny.max_files, tiny.total_files, tiny.total_size), (None, 3, 1));
}

#[test]
fn settings_defaults() {
    let s = Settings::from_values(None, None, None, None, None);
    assert_eq!(s.port, 8912);
    assert_eq!(s.max_storage_limit, 0);
    assert_eq!(s.max_file_size, 10 * 1024 * 1024);
    assert_eq!(s.max_unaccessed_time, 0);
    assert_eq!(s.max_cache_size_mb, None);
    assert!(!s.expiry_enabled());
}

#[test]
fn settings_unit_conversions() {
    let s = Settings::from_values(Some(80), Some(2), Some(25), Some(48), Some(64));
    assert_eq!(s.port, 80);
    assert_eq!(s.max_storage_limit, 2 * 1024 * 1024 * 1024);
    assert_eq!(s.max_file_size, 25 * 1024 * 1024);
    assert_eq!(s.max_unaccessed_time, 48 * 3600);
    assert_eq!(s.max_cache_size_mb, Some(64));
    assert!(s.expiry_enabled());
}

#[test]
fn expiry_cutoff_subtracts_the_allowed_age() {
    assert_eq!(expiry_cutoff(1_700_000_000, 3600), 1_699_996_400);
    assert_eq!(expiry_cutoff(0, 0), 0);
}
