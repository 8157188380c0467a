use market_sync::credential::{hex_str_fixed, Credential, CredentialManager, MAX_REFRESH_ATTEMPTS};
use market_sync::errors::SyncError;
use market_sync::query::AppQuery;
use market_sync::scheduler::{estimate_remaining_millis, plan_batches, RunState};

#[test]
fn refresh_is_single_flight() {
    let mut mgr = CredentialManager::new(60_000);
    assert!(mgr.needs_refresh(0));
    assert!(mgr.begin_refresh(0));
    // a concurrent caller must not start a second exchange
    assert!(!mgr.begin_refresh(0));
    assert!(!mgr.begin_refresh(1));
    mgr.complete_refresh("tok-1".to_string(), 5);
    let cred = mgr.current().expect("credential installed");
    assert_eq!(cred.token, "tok-1");
    assert_eq!(cred.identity_id.len(), 32);
    assert_eq!(cred.issued_at, 5);
}

#[test]
fn reads_never_block_and_staleness_follows_the_window() {
    let mut mgr = CredentialManager::new(60_000);
    assert!(mgr.current().is_none());
    assert!(mgr.begin_refresh(0));
    mgr.complete_refresh("tok".to_string(), 1_000);
    assert!(!mgr.needs_refresh(1_000));
    assert!(!mgr.needs_refresh(61_000));
    assert!(mgr.needs_refresh(61_001));
    // stale or not, the cached pair stays readable
    assert_eq!(mgr.current().expect("cached").token, "tok");
    // no refresh while fresh
    assert!(!mgr.begin_refresh(30_000));
}

#[test]
fn three_failures_exhaust_the_refresh() {
    let mut mgr = CredentialManager::new(60_000);
    assert!(mgr.begin_refresh(0));
    assert!(!mgr.fail_attempt());
    assert!(!mgr.fail_attempt());
    assert!(mgr.fail_attempt());
    assert_eq!(mgr.failed_attempts, MAX_REFRESH_ATTEMPTS);
    assert!(!mgr.refresh_in_flight);
    // the last-known-good credential (none here) is untouched
    assert!(mgr.current().is_none());
    // a later refresh may start again
    assert!(mgr.begin_refresh(100));
}

#[test]
fn full_token_appends_unix_millis() {
    let cred = Credential {
        token: "abcdef".to_string(),
        identity_id: "0".repeat(32),
        issued_at: 0,
    };
    assert_eq!(cred.get_full_token(1712345), "abcdef_1712345");
}

#[test]
fn hex_rendering_is_fixed_width_lowercase() {
    assert_eq!(hex_str_fixed(255, 4), "00ff");
    assert_eq!(hex_str_fixed(0xdeadbeef, 8), "deadbeef");
    assert_eq!(hex_str_fixed(0, 2), "00");
}

fn keys(names: &[&str]) -> Vec<AppQuery> {
    names.iter().map(|n| AppQuery::app_id(n)).collect()
}

#[test]
fn batches_cover_the_candidates_in_order() {
    let candidates = keys(&["a", "b", "c", "d", "e", "f", "g", "h", "i", "j"]);
    let batches = plan_batches(candidates, 3);
    assert_eq!(batches.len(), 4); // ceil(10 / 3)
    assert_eq!(batches[0].len(), 3);
    assert_eq!(batches[1].len(), 3);
    assert_eq!(batches[2].len(), 3);
    assert_eq!(batches[3].len(), 1);
    let flat: Vec<&str> = batches.iter().flatten().map(|q| q.name()).collect();
    assert_eq!(flat, vec!["a", "b", "c", "d", "e", "f", "g", "h", "i", "j"]);
}

#[test]
fn batch_count_is_exact_on_even_splits() {
    assert_eq!(plan_batches(keys(&["a", "b", "c", "d"]), 2).len(), 2);
    assert_eq!(plan_batches(keys(&[]), 5).len(), 0);
    assert_eq!(plan_batches(keys(&["a"]), 5).len(), 1);
}

#[test]
fn failures_are_counted_but_never_halt() {
    let mut run = RunState::new();
    run.record_result(&Ok((true, false, false)));
    run.record_result(&Ok((false, false, false)));
    run.record_result(&Err(SyncError::RemoteError {
        status: 404,
        body: "not found".to_string(),
    }));
    run.record_result(&Err(SyncError::DecodeError { detail: "bad shape".to_string() }));
    run.finish_batch();
    assert!(!run.is_halted());
    let summary = run.summary(1234);
    assert_eq!(summary.processed, 4);
    assert_eq!(summary.inserted, 1);
    assert_eq!(summary.skipped, 1);
    assert_eq!(summary.failed, 2);
    assert_eq!(summary.elapsed_millis, 1234);
}

#[test]
fn credentials_failure_halts_and_keeps_the_counts() {
    let mut run = RunState::new();
    run.record_result(&Ok((true, true, true)));
    run.record_result(&Ok((false, false, false)));
    run.finish_batch();
    run.record_result(&Err(SyncError::CredentialsUnavailable));
    assert!(run.is_halted());
    // nothing already ingested is dropped
    let summary = run.summary(10);
    assert_eq!(summary.inserted, 1);
    assert_eq!(summary.skipped, 1);
    assert_eq!(summary.failed, 1);
    assert_eq!(summary.processed, 3);
    assert_eq!(run.batches_done, 1);
}

#[test]
fn eta_extrapolates_the_average_batch_duration() {
    assert_eq!(estimate_remaining_millis(100, 0, 10), None);
    assert_eq!(estimate_remaining_millis(100, 2, 10), Some(400));
    assert_eq!(estimate_remaining_millis(100, 2, 2), Some(0));
    // already over the estimate: clamped to zero
    assert_eq!(estimate_remaining_millis(1000, 4, 2), Some(0));
}

#[test]
fn errors_describe_themselves() {
    assert_eq!(
        SyncError::CredentialsUnavailable.describe(),
        "credentials unavailable: token refresh exhausted its attempts"
    );
    assert!(SyncError::CredentialsUnavailable.is_systemic());
    let remote = SyncError::RemoteError { status: 503, body: "busy".to_string() };
    assert_eq!(remote.describe(), "remote error, status 503: busy");
    assert!(!remote.is_systemic());
    assert_eq!(
        SyncError::DecodeError { detail: "x".to_string() }.describe(),
        "decode error: x"
    );
    assert_eq!(
        SyncError::StoreError { detail: "y".to_string() }.describe(),
        "store error: y"
    );
}
