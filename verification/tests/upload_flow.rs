use geek_storage::ids::{generate_id, is_valid_id};
use geek_storage::replies::Failure;
use geek_storage::upload::{
    Cleanup, MoveOutcome, Source, UploadAction, UploadEvent, UploadFlow, UploadLimits, UploadPhase, UploadReply,
};

const HELLO_WORLD_SHA256: &str = "b94d27b9934d3e08a52e52d7da7dabfac484efe37a5380ee9088f7ace2efcde9";

fn limits(max_file_size: u64, max_storage_limit: u64) -> UploadLimits {
    UploadLimits { max_file_size, max_storage_limit }
}

/// Starts an authorised upload and answers up to the first field request.
fn begin(l: UploadLimits) -> UploadFlow {
    let (mut flow, action) = UploadFlow::start(None, None, l);
    assert!(matches!(action, UploadAction::CreateTempDir));
    assert!(matches!(flow.step(UploadEvent::TempDirReady(true)), UploadAction::DrawId));
    let action = flow.step(UploadEvent::IdDrawn(generate_id()));
    let id = match action {
        UploadAction::CheckId(id) => id,
        _ => panic!("expected an id check"),
    };
    assert!(is_valid_id(&id));
    assert_eq!(flow.id(), id);
    let action = flow.step(UploadEvent::IdChecked(Ok(false)));
    if l.max_storage_limit == 0 {
        assert!(matches!(action, UploadAction::NextField));
    } else {
        assert!(matches!(action, UploadAction::QueryTotalSize));
        assert!(matches!(flow.step(UploadEvent::TotalSize(0)), UploadAction::NextField));
    }
    flow
}

fn refused(action: UploadAction) -> (Failure, Cleanup) {
    match action {
        UploadAction::Finish { reply: UploadReply::Refused(f), cleanup } => (f, cleanup),
        _ => panic!("expected a refusal"),
    }
}

fn send_chunks(flow: &mut UploadFlow, chunks: &[&[u8]]) {
    for c in chunks {
        match flow.step(UploadEvent::Chunk(Ok(Some(c.to_vec())))) {
            UploadAction::WriteChunk(d) => assert_eq!(&d[..], *c),
            _ => panic!("expected a write"),
        }
        assert!(matches!(flow.step(UploadEvent::ChunkWritten(true)), UploadAction::ReadChunk(Source::Form)));
    }
}

#[test]
fn unauthorized_upload_is_refused() {
    let (flow, action) = UploadFlow::start(Some("tok"), Some("Bearer nope"), limits(100, 0));
    assert_eq!(refused(action), (Failure::NotAllowed, Cleanup::Nothing));
    assert_eq!(flow.phase(), UploadPhase::Finished);
    let (_, action) = UploadFlow::start(Some("tok"), None, limits(100, 0));
    assert_eq!(refused(action), (Failure::NotAllowed, Cleanup::Nothing));
}

#[test]
fn authorized_upload_prepares_directory() {
    let (_, action) = UploadFlow::start(Some("tok"), Some("Bearer tok"), limits(100, 0));
    assert!(matches!(action, UploadAction::CreateTempDir));
}

#[test]
fn temp_dir_failure_is_refused() {
    let (mut flow, _) = UploadFlow::start(None, None, limits(100, 0));
    assert_eq!(refused(flow.step(UploadEvent::TempDirReady(false))), (Failure::UploadFailed, Cleanup::Nothing));
}

#[test]
fn taken_id_is_redrawn() {
    let (mut flow, _) = UploadFlow::start(None, None, limits(100, 0));
    assert!(matches!(flow.step(UploadEvent::TempDirReady(true)), UploadAction::DrawId));
    match flow.step(UploadEvent::IdDrawn(Some("Taken".to_string()))) {
        UploadAction::CheckId(id) => assert_eq!(id, "Taken"),
        _ => panic!("expected an id check"),
    }
    assert!(matches!(flow.step(UploadEvent::IdChecked(Ok(true))), UploadAction::DrawId));
    match flow.step(UploadEvent::IdDrawn(Some("Fresh".to_string()))) {
        UploadAction::CheckId(id) => assert_eq!(id, "Fresh"),
        _ => panic!("expected another id check"),
    }
    assert_eq!(flow.id(), "Fresh");
    assert_eq!(refused(flow.step(UploadEvent::IdChecked(Err(())))), (Failure::UploadFailed, Cleanup::Nothing));
}

#[test]
fn failed_or_ill_formed_draw_is_refused() {
    let (mut flow, _) = UploadFlow::start(None, None, limits(100, 0));
    flow.step(UploadEvent::TempDirReady(true));
    assert_eq!(refused(flow.step(UploadEvent::IdDrawn(None))), (Failure::UploadFailed, Cleanup::Nothing));
    let (mut flow, _) = UploadFlow::start(None, None, limits(100, 0));
    flow.step(UploadEvent::TempDirReady(true));
    assert_eq!(refused(flow.step(UploadEvent::IdDrawn(Some("../x".to_string())))), (Failure::UploadFailed, Cleanup::Nothing));
}

#[test]
fn whole_file_upload_is_stored_and_recorded() {
    let mut flow = begin(limits(1024, 0));
    assert!(matches!(flow.step(UploadEvent::Field(Ok(Some("other".to_string())))), UploadAction::NextField));
    assert!(matches!(flow.step(UploadEvent::Field(Ok(Some("file".to_string())))), UploadAction::CreateTempFile));
    assert!(matches!(flow.step(UploadEvent::FileCreated(true)), UploadAction::ReadChunk(Source::Form)));
    send_chunks(&mut flow, &[b"hello ", b"world"]);
    match flow.step(UploadEvent::Chunk(Ok(None))) {
        UploadAction::FindHash(h) => assert_eq!(h, HELLO_WORLD_SHA256),
        _ => panic!("expected a hash lookup"),
    }
    assert!(matches!(flow.step(UploadEvent::HashFound(Ok(None))), UploadAction::MoveIntoStorage));
    assert!(matches!(flow.step(UploadEvent::Moved(MoveOutcome::Moved)), UploadAction::FindHash(_)));
    let id = flow.id().to_string();
    match flow.step(UploadEvent::HashFound(Ok(None))) {
        UploadAction::Register(f) => {
            assert_eq!(f.id, id);
            assert_eq!(f.hash, HELLO_WORLD_SHA256);
            assert_eq!(f.size, 11);
        },
        _ => panic!("expected registration"),
    }
    match flow.step(UploadEvent::Registered(Ok(true))) {
        UploadAction::Finish { reply: UploadReply::Stored { id: got, created }, cleanup } => {
            assert_eq!(got, id);
            assert!(created);
            assert_eq!(cleanup, Cleanup::Nothing);
        },
        _ => panic!("expected success"),
    }
    assert_eq!(flow.phase(), UploadPhase::Finished);
}

#[test]
fn hash_does_not_depend_on_chunking() {
    let mut flow = begin(limits(1024, 0));
    flow.step(UploadEvent::Field(Ok(Some("file".to_string()))));
    flow.step(UploadEvent::FileCreated(true));
    send_chunks(&mut flow, &[b"h", b"ello wor", b"", b"ld"]);
    match flow.step(UploadEvent::Chunk(Ok(None))) {
        UploadAction::FindHash(h) => assert_eq!(h, HELLO_WORLD_SHA256),
        _ => panic!("expected a hash lookup"),
    }
}

#[test]
fn oversized_upload_is_refused_and_cleaned_up() {
    let mut flow = begin(limits(10 * 1024 * 1024, 0));
    flow.step(UploadEvent::Field(Ok(Some("file".to_string()))));
    flow.step(UploadEvent::FileCreated(true));
    send_chunks(&mut flow, &[&vec![0u8; 10 * 1024 * 1024]]);
    let action = flow.step(UploadEvent::Chunk(Ok(Some(vec![1u8]))));
    assert_eq!(refused(action), (Failure::TooLarge { limit_mb: 10 }, Cleanup::TempFile));
}

#[test]
fn upload_exactly_at_limit_is_accepted() {
    let mut flow = begin(limits(4, 0));
    flow.step(UploadEvent::Field(Ok(Some("file".to_string()))));
    flow.step(UploadEvent::FileCreated(true));
    send_chunks(&mut flow, &[b"ab", b"cd"]);
    assert!(matches!(flow.step(UploadEvent::Chunk(Ok(None))), UploadAction::FindHash(_)));
}

#[test]
fn upload_beyond_storage_left_is_refused() {
    let (mut flow, _) = UploadFlow::start(None, None, limits(1000, 100));
    flow.step(UploadEvent::TempDirReady(true));
    flow.step(UploadEvent::IdDrawn(Some("abcde".to_string())));
    assert!(matches!(flow.step(UploadEvent::IdChecked(Ok(false))), UploadAction::QueryTotalSize));
    assert!(matches!(flow.step(UploadEvent::TotalSize(95)), UploadAction::NextField));
    flow.step(UploadEvent::Field(Ok(Some("file".to_string()))));
    flow.step(UploadEvent::FileCreated(true));
    send_chunks(&mut flow, &[b"12345"]);
    assert_eq!(refused(flow.step(UploadEvent::Chunk(Ok(Some(b"6".to_vec()))))), (Failure::StorageFull, Cleanup::TempFile));
}

#[test]
fn storage_rechecked_when_content_complete() {
    let (mut flow, _) = UploadFlow::start(None, None, limits(1000, 100));
    flow.step(UploadEvent::TempDirReady(true));
    flow.step(UploadEvent::IdDrawn(Some("abcde".to_string())));
    flow.step(UploadEvent::IdChecked(Ok(false)));
    flow.step(UploadEvent::TotalSize(0));
    flow.step(UploadEvent::Field(Ok(Some("file".to_string()))));
    flow.step(UploadEvent::FileCreated(true));
    send_chunks(&mut flow, &[b"0123456789"]);
    assert!(matches!(flow.step(UploadEvent::Chunk(Ok(None))), UploadAction::QueryTotalSize));
    assert_eq!(refused(flow.step(UploadEvent::TotalSize(91))), (Failure::StorageFull, Cleanup::TempFile));
}

#[test]
fn storage_exactly_full_is_accepted() {
    let (mut flow, _) = UploadFlow::start(None, None, limits(1000, 100));
    flow.step(UploadEvent::TempDirReady(true));
    flow.step(UploadEvent::IdDrawn(Some("abcde".to_string())));
    flow.step(UploadEvent::IdChecked(Ok(false)));
    flow.step(UploadEvent::TotalSize(0));
    flow.step(UploadEvent::Field(Ok(Some("file".to_string()))));
    flow.step(UploadEvent::FileCreated(true));
    send_chunks(&mut flow, &[b"0123456789"]);
    flow.step(UploadEvent::Chunk(Ok(None)));
    assert!(matches!(flow.step(UploadEvent::TotalSize(90)), UploadAction::FindHash(_)));
}

#[test]
fn duplicate_content_answers_existing_id() {
    let mut flow = begin(limits(1024, 0));
    flow.step(UploadEvent::Field(Ok(Some("file".to_string()))));
    flow.step(UploadEvent::FileCreated(true));
    send_chunks(&mut flow, &[b"dup"]);
    flow.step(UploadEvent::Chunk(Ok(None)));
    match flow.step(UploadEvent::HashFound(Ok(Some("Old01".to_string())))) {
        UploadAction::Finish { reply: UploadReply::Stored { id, created }, cleanup } => {
            assert_eq!(id, "Old01");
            assert!(!created);
            assert_eq!(cleanup, Cleanup::TempFile);
        },
        _ => panic!("expected the existing id"),
    }
}

#[test]
fn link_upload_downloads_and_copies_across_devices() {
    let mut flow = begin(limits(1024, 0));
    assert!(matches!(flow.step(UploadEvent::Field(Ok(Some("link".to_string())))), UploadAction::ReadLinkText));
    match flow.step(UploadEvent::LinkText(Ok("https://example.com/a.mp3".to_string()))) {
        UploadAction::Download(l) => assert_eq!(l, "https://example.com/a.mp3"),
        _ => panic!("expected a download"),
    }
    assert!(matches!(flow.step(UploadEvent::Downloaded(true)), UploadAction::CreateTempFile));
    assert!(matches!(flow.step(UploadEvent::FileCreated(true)), UploadAction::ReadChunk(Source::Link)));
    assert!(matches!(flow.step(UploadEvent::Chunk(Ok(Some(b"abc".to_vec())))), UploadAction::WriteChunk(_)));
    assert!(matches!(flow.step(UploadEvent::ChunkWritten(true)), UploadAction::ReadChunk(Source::Link)));
    flow.step(UploadEvent::Chunk(Ok(None)));
    flow.step(UploadEvent::HashFound(Ok(None)));
    assert!(matches!(flow.step(UploadEvent::Moved(MoveOutcome::CrossesDevices)), UploadAction::CopyIntoStorage));
    assert!(matches!(flow.step(UploadEvent::Copied(true)), UploadAction::DiscardTempFile));
    assert!(matches!(flow.step(UploadEvent::TempDiscarded), UploadAction::FindHash(_)));
    assert!(matches!(flow.step(UploadEvent::HashFound(Ok(None))), UploadAction::Register(_)));
}

#[test]
fn link_failures() {
    let mut flow = begin(limits(1024, 0));
    flow.step(UploadEvent::Field(Ok(Some("link".to_string()))));
    assert_eq!(refused(flow.step(UploadEvent::LinkText(Err(())))), (Failure::BadLinkField, Cleanup::Nothing));

    let mut flow = begin(limits(1024, 0));
    flow.step(UploadEvent::Field(Ok(Some("link".to_string()))));
    flow.step(UploadEvent::LinkText(Ok("http://x".to_string())));
    assert_eq!(refused(flow.step(UploadEvent::Downloaded(false))), (Failure::DownloadFailed, Cleanup::Nothing));

    let mut flow = begin(limits(1024, 0));
    flow.step(UploadEvent::Field(Ok(Some("link".to_string()))));
    flow.step(UploadEvent::LinkText(Ok("http://x".to_string())));
    flow.step(UploadEvent::Downloaded(true));
    flow.step(UploadEvent::FileCreated(true));
    assert_eq!(refused(flow.step(UploadEvent::Chunk(Err(())))), (Failure::DownloadFailed, Cleanup::TempFile));
}

#[test]
fn form_failures() {
    let mut flow = begin(limits(1024, 0));
    assert_eq!(refused(flow.step(UploadEvent::Field(Err(())))), (Failure::BadForm, Cleanup::Nothing));

    let mut flow = begin(limits(1024, 0));
    assert_eq!(refused(flow.step(UploadEvent::Field(Ok(None)))), (Failure::NothingSent, Cleanup::Nothing));

    let mut flow = begin(limits(1024, 0));
    flow.step(UploadEvent::Field(Ok(Some("file".to_string()))));
    assert_eq!(refused(flow.step(UploadEvent::FileCreated(false))), (Failure::UploadFailed, Cleanup::Nothing));

    let mut flow = begin(limits(1024, 0));
    flow.step(UploadEvent::Field(Ok(Some("file".to_string()))));
    flow.step(UploadEvent::FileCreated(true));
    assert_eq!(refused(flow.step(UploadEvent::Chunk(Err(())))), (Failure::BadFileData, Cleanup::TempFile));

    let mut flow = begin(limits(1024, 0));
    flow.step(UploadEvent::Field(Ok(Some("file".to_string()))));
    flow.step(UploadEvent::FileCreated(true));
    flow.step(UploadEvent::Chunk(Ok(Some(b"x".to_vec()))));
    assert_eq!(refused(flow.step(UploadEvent::ChunkWritten(false))), (Failure::UploadFailed, Cleanup::TempFile));
}

fn complete_small_upload() -> UploadFlow {
    let mut flow = begin(limits(1024, 0));
    flow.step(UploadEvent::Field(Ok(Some("file".to_string()))));
    flow.step(UploadEvent::FileCreated(true));
    send_chunks(&mut flow, &[b"content"]);
    flow.step(UploadEvent::Chunk(Ok(None)));
    flow
}

#[test]
fn placing_failures_clean_up() {
    let mut flow = complete_small_upload();
    assert_eq!(refused(flow.step(UploadEvent::HashFound(Err(())))), (Failure::UploadFailed, Cleanup::TempFile));

    let mut flow = complete_small_upload();
    flow.step(UploadEvent::HashFound(Ok(None)));
    assert_eq!(refused(flow.step(UploadEvent::Moved(MoveOutcome::Failed))), (Failure::UploadFailed, Cleanup::TempFile));

    let mut flow = complete_small_upload();
    flow.step(UploadEvent::HashFound(Ok(None)));
    flow.step(UploadEvent::Moved(MoveOutcome::CrossesDevices));
    assert_eq!(refused(flow.step(UploadEvent::Copied(false))), (Failure::UploadFailed, Cleanup::TempFile));

    let mut flow = complete_small_upload();
    flow.step(UploadEvent::HashFound(Ok(None)));
    flow.step(UploadEvent::Moved(MoveOutcome::Moved));
    assert_eq!(refused(flow.step(UploadEvent::HashFound(Err(())))), (Failure::UploadFailed, Cleanup::StoredFile));

    let mut flow = complete_small_upload();
    flow.step(UploadEvent::HashFound(Ok(None)));
    flow.step(UploadEvent::Moved(MoveOutcome::Moved));
    flow.step(UploadEvent::HashFound(Ok(None)));
    assert_eq!(refused(flow.step(UploadEvent::Registered(Err(())))), (Failure::UploadFailed, Cleanup::StoredFile));
}

#[test]
fn race_after_placing_answers_existing_id() {
    let mut flow = complete_small_upload();
    flow.step(UploadEvent::HashFound(Ok(None)));
    flow.step(UploadEvent::Moved(MoveOutcome::Moved));
    match flow.step(UploadEvent::HashFound(Ok(Some("Race1".to_string())))) {
        UploadAction::Finish { reply: UploadReply::Stored { id, created }, cleanup } => {
            assert_eq!(id, "Race1");
            assert!(!created);
            assert_eq!(cleanup, Cleanup::StoredFile);
        },
        _ => panic!("expected the existing id"),
    }
}

#[test]
fn record_not_added_answers_original_or_own_id() {
    let mut flow = complete_small_upload();
    flow.step(UploadEvent::HashFound(Ok(None)));
    flow.step(UploadEvent::Moved(MoveOutcome::Moved));
    flow.step(UploadEvent::HashFound(Ok(None)));
    assert!(matches!(flow.step(UploadEvent::Registered(Ok(false))), UploadAction::DiscardStoredFile));
    assert!(matches!(flow.step(UploadEvent::StoredDiscarded), UploadAction::FindHash(_)));
    match flow.step(UploadEvent::HashFound(Ok(Some("Orig1".to_string())))) {
        UploadAction::Finish { reply: UploadReply::Stored { id, created }, cleanup } => {
            assert_eq!(id, "Orig1");
            assert!(!created);
            assert_eq!(cleanup, Cleanup::Nothing);
        },
        _ => panic!("expected the original id"),
    }

    let mut flow = complete_small_upload();
    let own = flow.id().to_string();
    flow.step(UploadEvent::HashFound(Ok(None)));
    flow.step(UploadEvent::Moved(MoveOutcome::Moved));
    flow.step(UploadEvent::HashFound(Ok(None)));
    flow.step(UploadEvent::Registered(Ok(false)));
    flow.step(UploadEvent::StoredDiscarded);
    match flow.step(UploadEvent::HashFound(Err(()))) {
        UploadAction::Finish { reply: UploadReply::Stored { id, .. }, .. } => assert_eq!(id, own),
        _ => panic!("expected the upload's own id"),
    }
}

#[test]
fn unexpected_event_ends_upload() {
    let mut flow = begin(limits(1024, 0));
    assert_eq!(refused(flow.step(UploadEvent::TempDiscarded)), (Failure::UploadFailed, Cleanup::Nothing));
    let mut flow = complete_small_upload();
    assert_eq!(refused(flow.step(UploadEvent::StoredDiscarded)), (Failure::UploadFailed, Cleanup::TempFile));
}
