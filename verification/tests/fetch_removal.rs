use bytes::Bytes;
use geek_storage::fetch::{FetchAction, FetchEvent, FetchFlow, FetchReply};
use geek_storage::removal::{RemovalAction, RemovalEvent, RemovalFlow};
use geek_storage::replies::Failure;
use geek_storage::sweep::{Sweep, SweepAction, SweepEvent, SweepKind};
use std::sync::Arc;

fn fetch_refusal(action: FetchAction) -> Failure {
    match action {
        FetchAction::Finish(FetchReply::Refused(f)) => f,
        _ => panic!("expected a refusal"),
    }
}

#[test]
fn fetch_of_ill_formed_id_is_not_found() {
    let (_, action) = FetchFlow::start("../etc", Some(100));
    assert_eq!(fetch_refusal(action), Failure::NotFound);
}

#[test]
fn fetch_serves_cache_hit() {
    let (mut flow, action) = FetchFlow::start("abcde", Some(100));
    assert!(matches!(action, FetchAction::LookUpCache));
    let data = Arc::new(Bytes::from(b"cached!".to_vec()));
    assert!(matches!(flow.step(FetchEvent::CacheLookup(Some(data))), FetchAction::TouchRecord));
    match flow.step(FetchEvent::RecordTouched) {
        FetchAction::Finish(FetchReply::Cached(d)) => assert_eq!(&d[..], b"cached!"),
        _ => panic!("expected the cached bytes"),
    }
}

#[test]
fn fetch_without_cache_checks_database() {
    let (mut flow, action) = FetchFlow::start("abcde", None);
    assert!(matches!(action, FetchAction::CheckExists));
    assert_eq!(fetch_refusal(flow.step(FetchEvent::Exists(Ok(false)))), Failure::NotFound);
    let (mut flow, _) = FetchFlow::start("abcde", None);
    assert_eq!(fetch_refusal(flow.step(FetchEvent::Exists(Err(())))), Failure::CheckFailed);
}

fn opened(cache_limit: Option<usize>) -> FetchFlow {
    let (mut flow, action) = FetchFlow::start("abcde", cache_limit);
    if cache_limit.is_some() {
        assert!(matches!(action, FetchAction::LookUpCache));
        assert!(matches!(flow.step(FetchEvent::CacheLookup(None)), FetchAction::CheckExists));
    }
    assert!(matches!(flow.step(FetchEvent::Exists(Ok(true))), FetchAction::OpenFile));
    assert!(matches!(flow.step(FetchEvent::Opened(true)), FetchAction::TouchRecord));
    assert!(matches!(flow.step(FetchEvent::RecordTouched), FetchAction::MeasureFile));
    flow
}

#[test]
fn small_file_is_read_and_cached() {
    let mut flow = opened(Some(100));
    assert!(matches!(flow.step(FetchEvent::Measured(100)), FetchAction::ReadWhole(100)));
    match flow.step(FetchEvent::ReadWhole(Ok(b"data".to_vec()))) {
        FetchAction::Finish(FetchReply::CacheAndServe(d)) => assert_eq!(d, b"data"),
        _ => panic!("expected cache and serve"),
    }
}

#[test]
fn large_empty_or_uncached_files_are_streamed() {
    let mut flow = opened(Some(100));
    assert!(matches!(flow.step(FetchEvent::Measured(101)), FetchAction::Finish(FetchReply::Stream)));
    let mut flow = opened(Some(100));
    assert!(matches!(flow.step(FetchEvent::Measured(0)), FetchAction::Finish(FetchReply::Stream)));
    let mut flow = opened(None);
    assert!(matches!(flow.step(FetchEvent::Measured(5)), FetchAction::Finish(FetchReply::Stream)));
}

#[test]
fn failed_read_falls_back_to_stream() {
    let mut flow = opened(Some(100));
    flow.step(FetchEvent::Measured(10));
    assert!(matches!(flow.step(FetchEvent::ReadWhole(Err(()))), FetchAction::Reopen));
    assert!(matches!(flow.step(FetchEvent::Reopened(true)), FetchAction::Finish(FetchReply::Stream)));
    let mut flow = opened(Some(100));
    flow.step(FetchEvent::Measured(10));
    flow.step(FetchEvent::ReadWhole(Err(())));
    assert_eq!(fetch_refusal(flow.step(FetchEvent::Reopened(false))), Failure::ReadFailed);
}

#[test]
fn unopenable_file_is_read_failure() {
    let (mut flow, _) = FetchFlow::start("abcde", None);
    flow.step(FetchEvent::Exists(Ok(true)));
    assert_eq!(fetch_refusal(flow.step(FetchEvent::Opened(false))), Failure::ReadFailed);
}

#[test]
fn delete_requires_token() {
    let (_, action) = RemovalFlow::start(Some("tok"), Some("Bearer bad"), "abcde");
    assert_eq!(action, RemovalAction::Refused(Failure::NotAllowed));
    let (_, action) = RemovalFlow::start(Some("tok"), Some("Bearer tok"), "abc");
    assert_eq!(action, RemovalAction::Refused(Failure::NotFound));
}

#[test]
fn delete_removes_record_then_file() {
    let (mut flow, action) = RemovalFlow::start(None, None, "abcde");
    assert_eq!(action, RemovalAction::CheckExists);
    assert_eq!(flow.step(RemovalEvent::Exists(Ok(true))), RemovalAction::DeleteRecord);
    assert_eq!(flow.step(RemovalEvent::RecordDeleted(true)), RemovalAction::EvictCached);
    assert_eq!(flow.step(RemovalEvent::Evicted), RemovalAction::RemoveFile);
    assert_eq!(flow.step(RemovalEvent::FileRemoved(true)), RemovalAction::Deleted);
    assert_eq!(flow.id(), "abcde");
}

#[test]
fn delete_failures() {
    let (mut flow, _) = RemovalFlow::start(None, None, "abcde");
    assert_eq!(flow.step(RemovalEvent::Exists(Ok(false))), RemovalAction::Refused(Failure::NotFound));
    let (mut flow, _) = RemovalFlow::start(None, None, "abcde");
    assert_eq!(flow.step(RemovalEvent::Exists(Err(()))), RemovalAction::Refused(Failure::CheckFailed));
    let (mut flow, _) = RemovalFlow::start(None, None, "abcde");
    flow.step(RemovalEvent::Exists(Ok(true)));
    assert_eq!(flow.step(RemovalEvent::RecordDeleted(false)), RemovalAction::Refused(Failure::DeleteFailed));
    let (mut flow, _) = RemovalFlow::start(None, None, "abcde");
    flow.step(RemovalEvent::Exists(Ok(true)));
    flow.step(RemovalEvent::RecordDeleted(true));
    flow.step(RemovalEvent::Evicted);
    assert_eq!(flow.step(RemovalEvent::FileRemoved(false)), RemovalAction::Refused(Failure::DeleteFailed));
}

#[test]
fn deleted_file_is_no_longer_served() {
    let mut cache = geek_storage::cache::FileCache::new(1);
    assert!(cache.insert("abcde".to_string(), b"secret".to_vec()));

    let (mut removal, action) = RemovalFlow::start(None, None, "abcde");
    assert_eq!(action, RemovalAction::CheckExists);
    assert_eq!(removal.step(RemovalEvent::Exists(Ok(true))), RemovalAction::DeleteRecord);
    assert_eq!(removal.step(RemovalEvent::RecordDeleted(true)), RemovalAction::EvictCached);
    cache.remove(removal.id());
    assert_eq!(removal.step(RemovalEvent::Evicted), RemovalAction::RemoveFile);
    assert_eq!(removal.step(RemovalEvent::FileRemoved(true)), RemovalAction::Deleted);

    let (mut fetch, action) = FetchFlow::start("abcde", Some(cache.get_max_size_per_entry()));
    assert!(matches!(action, FetchAction::LookUpCache));
    let hit = cache.get(fetch.id());
    assert!(hit.is_none());
    assert!(matches!(fetch.step(FetchEvent::CacheLookup(hit)), FetchAction::CheckExists));
    assert_eq!(fetch_refusal(fetch.step(FetchEvent::Exists(Ok(false)))), Failure::NotFound);
}

#[test]
fn repeated_delete_is_not_found() {
    let (mut flow, _) = RemovalFlow::start(None, None, "abcde");
    assert_eq!(flow.step(RemovalEvent::Exists(Ok(false))), RemovalAction::Refused(Failure::NotFound));
}

#[test]
fn expired_sweep_counts_and_reports() {
    let mut sweep = Sweep::new(SweepKind::Expired, true);
    assert_eq!(sweep.report(), None);
    assert_eq!(sweep.begin_item(), SweepAction::DeleteRecord);
    assert_eq!(sweep.step(SweepEvent::RecordDeleted(true)), SweepAction::RemoveFile);
    assert_eq!(sweep.step(SweepEvent::FileRemoved(true)), SweepAction::EvictCached);
    assert_eq!(sweep.step(SweepEvent::Evicted), SweepAction::ItemDone);
    assert_eq!(sweep.begin_item(), SweepAction::DeleteRecord);
    assert_eq!(sweep.step(SweepEvent::RecordDeleted(false)), SweepAction::ItemDone);
    assert_eq!(sweep.begin_item(), SweepAction::DeleteRecord);
    assert_eq!(sweep.step(SweepEvent::RecordDeleted(true)), SweepAction::RemoveFile);
    assert_eq!(sweep.step(SweepEvent::FileRemoved(false)), SweepAction::ItemDone);
    assert_eq!((sweep.items(), sweep.succeeded(), sweep.failed()), (3, 1, 2));
    assert_eq!(sweep.report().as_deref(), Some("Cleaned up 1/3 expired files (2 fails)"));
}

#[test]
fn expired_sweep_without_cache_skips_eviction() {
    let mut sweep = Sweep::new(SweepKind::Expired, false);
    sweep.begin_item();
    sweep.step(SweepEvent::RecordDeleted(true));
    assert_eq!(sweep.step(SweepEvent::FileRemoved(true)), SweepAction::ItemDone);
    assert_eq!(sweep.report().as_deref(), Some("Cleaned up 1/1 expired files (0 fails)"));
}

#[test]
fn invalid_sweep_only_counts_missing_files() {
    let mut sweep = Sweep::new(SweepKind::Invalid, false);
    assert_eq!(sweep.begin_item(), SweepAction::CheckOnDisk);
    assert_eq!(sweep.step(SweepEvent::OnDisk(true)), SweepAction::ItemDone);
    assert_eq!(sweep.report(), None);
    sweep.begin_item();
    assert_eq!(sweep.step(SweepEvent::OnDisk(false)), SweepAction::DeleteRecord);
    assert_eq!(sweep.step(SweepEvent::RecordDeleted(true)), SweepAction::ItemDone);
    sweep.begin_item();
    sweep.step(SweepEvent::OnDisk(false));
    sweep.step(SweepEvent::RecordDeleted(false));
    assert_eq!(sweep.report().as_deref(), Some("Cleaned up 1/2 invalid files (1 fails)"));
}

#[test]
fn unknown_sweep_removes_unrecorded_files() {
    let mut sweep = Sweep::new(SweepKind::Unknown, false);
    assert_eq!(sweep.begin_item(), SweepAction::CheckRecord);
    assert_eq!(sweep.step(SweepEvent::RecordExists(Ok(true))), SweepAction::ItemDone);
    sweep.begin_item();
    assert_eq!(sweep.step(SweepEvent::RecordExists(Err(()))), SweepAction::ItemDone);
    sweep.begin_item();
    assert_eq!(sweep.step(SweepEvent::RecordExists(Ok(false))), SweepAction::RemoveFile);
    assert_eq!(sweep.step(SweepEvent::FileRemoved(true)), SweepAction::ItemDone);
    assert_eq!(sweep.report().as_deref(), Some("Cleaned up 1/2 unknown files (1 fails)"));
}
