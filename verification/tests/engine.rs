use std::time::Instant;

use ratiomaster::engine::listener::{build_handshake, is_valid_handshake};
use ratiomaster::engine::stop::{target_reached, StopProgress, StopTarget};
use ratiomaster::engine::speed::{apply_variation, bytes_for_interval, init_speed, vary_speed, SpeedConfig};
use ratiomaster::engine::{
    after_announce, announce_params, continue_after_failure, event_param, fails_at_once,
    http_version_for, initial_state, interval_event, record_announce, retries_exhausted,
    retry_backoff_secs, second_elapsed, should_announce, tick, AnnounceResult, EngineError,
};
use ratiomaster::network::http::HttpVersion;

fn test_info_hash() -> [u8; 20] {
    [
        0x01, 0x02, 0x03, 0x04, 0x05, 0x06, 0x07, 0x08, 0x09, 0x0a, 0x0b, 0x0c, 0x0d, 0x0e, 0x0f, 0x10,
        0x11, 0x12, 0x13, 0x14,
    ]
}

fn test_peer_id() -> [u8; 20] {
    *b"-UT3320-abcdefghijkl"
}

const PROTOCOL_STRING: &[u8] = b"BitTorrent protocol";

#[test]
fn build_handshake_format() {
    let ih = test_info_hash();
    let pid = test_peer_id();
    let hs = build_handshake(&ih, &pid);
    assert_eq!(hs[0], 19);
    assert_eq!(&hs[1..20], PROTOCOL_STRING);
    assert_eq!(&hs[20..28], &[0u8; 8]);
    assert_eq!(&hs[28..48], &ih);
    assert_eq!(&hs[48..68], &pid);
}

#[test]
fn valid_handshake_matching_hash() {
    let ih = test_info_hash();
    let pid = test_peer_id();
    let hs = build_handshake(&ih, &pid);
    assert!(is_valid_handshake(&hs, &ih));
}

#[test]
fn invalid_handshake_wrong_hash() {
    let ih = test_info_hash();
    let pid = test_peer_id();
    let hs = build_handshake(&ih, &pid);
    let wrong_hash = [0xFFu8; 20];
    assert!(!is_valid_handshake(&hs, &wrong_hash));
}

#[test]
fn invalid_handshake_wrong_protocol_length() {
    let ih = test_info_hash();
    let pid = test_peer_id();
    let mut hs = build_handshake(&ih, &pid);
    hs[0] = 18;
    assert!(!is_valid_handshake(&hs, &ih));
}

#[test]
fn invalid_handshake_wrong_protocol_string() {
    let ih = test_info_hash();
    let pid = test_peer_id();
    let mut hs = build_handshake(&ih, &pid);
    hs[1] = b'X';
    assert!(!is_valid_handshake(&hs, &ih));
}

#[test]
fn default_config_values() {
    let config = SpeedConfig::default();
    assert_eq!(config.upload_min, 50 * 1024);
    assert_eq!(config.upload_max, 150 * 1024);
    assert_eq!(config.variation, 10 * 1024);
}

#[test]
fn init_speed_within_range() {
    let config = SpeedConfig { upload_min: 100, upload_max: 200, download_min: 300, download_max: 400, variation: 0 };
    for _ in 0..100 {
        let state = init_speed(&config);
        assert!(state.base_upload >= 100 && state.base_upload <= 200);
        assert!(state.base_download >= 300 && state.base_download <= 400);
        assert_eq!(state.current_upload, state.base_upload);
        assert_eq!(state.current_download, state.base_download);
    }
}

#[test]
fn init_speed_fixed_range() {
    let config = SpeedConfig { upload_min: 1000, upload_max: 1000, download_min: 2000, download_max: 2000, variation: 0 };
    let state = init_speed(&config);
    assert_eq!(state.base_upload, 1000);
    assert_eq!(state.base_download, 2000);
}

#[test]
fn vary_speed_changes_current() {
    let config = SpeedConfig { upload_min: 1000, upload_max: 1000, download_min: 1000, download_max: 1000, variation: 500 };
    let mut state = init_speed(&config);
    let mut any_different = false;
    for _ in 0..100 {
        vary_speed(&mut state, &config);
        if state.current_upload != state.base_upload {
            any_different = true;
        }
        let diff = (state.current_upload as i64 - state.base_upload as i64).unsigned_abs();
        assert!(diff <= config.variation, "diff {diff} > variation {}", config.variation);
    }
    assert!(any_different, "variation should change current speed");
}

#[test]
fn vary_speed_zero_variation() {
    let config = SpeedConfig { upload_min: 1000, upload_max: 1000, download_min: 1000, download_max: 1000, variation: 0 };
    let mut state = init_speed(&config);
    vary_speed(&mut state, &config);
    assert_eq!(state.current_upload, state.base_upload);
    assert_eq!(state.current_download, state.base_download);
}

#[test]
fn vary_speed_no_underflow() {
    let config = SpeedConfig { upload_min: 0, upload_max: 0, download_min: 0, download_max: 0, variation: 1000 };
    let mut state = init_speed(&config);
    for _ in 0..100 {
        vary_speed(&mut state, &config);
    }
}

#[test]
fn apply_variation_values() {
    assert_eq!(apply_variation(1000, 0, 500), 500);
    assert_eq!(apply_variation(1000, 1000, 500), 1500);
    assert_eq!(apply_variation(100, 0, 500), 0);
}

#[test]
fn bytes_for_interval_basic() {
    assert_eq!(bytes_for_interval(1024, 60), 61440);
}

#[test]
fn bytes_for_interval_zero() {
    assert_eq!(bytes_for_interval(0, 100), 0);
    assert_eq!(bytes_for_interval(100, 0), 0);
}

#[test]
fn bytes_for_interval_no_overflow() {
    let result = bytes_for_interval(u64::MAX, u64::MAX);
    assert_eq!(result, u64::MAX);
}

#[test]
fn engine_initial_state() {
    let state = initial_state(1024, 0, Instant::now());
    assert_eq!(state.uploaded, 0);
    assert_eq!(state.downloaded, 0);
    assert_eq!(state.left, 1024);
    assert_eq!(state.announce_count, 0);
    assert!(!state.completed_sent);
    assert_eq!(state.interval, 1800);
}

#[test]
fn engine_seed_mode() {
    let state = initial_state(1024, 100, Instant::now());
    assert_eq!(state.downloaded, 1024);
    assert_eq!(state.left, 0);
    assert!(state.completed_sent);
}

#[test]
fn engine_partial_download() {
    let state = initial_state(1000, 50, Instant::now());
    assert_eq!(state.downloaded, 500);
    assert_eq!(state.left, 500);
    assert!(!state.completed_sent);
}

#[test]
fn transfer_then_completed_event() {
    let mut state = initial_state(1000, 0, Instant::now());
    tick(&mut state, 10, 600);
    assert_eq!((state.uploaded, state.downloaded, state.left), (10, 600, 400));
    tick(&mut state, u64::MAX, 600);
    assert_eq!((state.uploaded, state.downloaded, state.left), (u64::MAX, 1000, 0));
    assert!(should_announce(false, 1800, state.interval));
    assert!(!should_announce(false, 1799, state.interval));
    assert!(should_announce(true, 0, state.interval));
    assert_eq!(interval_event(&mut state), "completed");
    assert!(state.completed_sent);
    assert_eq!(interval_event(&mut state), "");
    record_announce(&mut state, 900);
    assert_eq!((state.interval, state.announce_count), (900, 1));
}

#[test]
fn retry_and_failure_policy() {
    assert_eq!(retry_backoff_secs(0), 1);
    assert_eq!(retry_backoff_secs(1), 2);
    assert_eq!(retry_backoff_secs(5), 32);
    assert_eq!(retry_backoff_secs(9), 32);
    assert!(fails_at_once(&EngineError::TrackerFailure("x".into()), false));
    assert!(!fails_at_once(&EngineError::TrackerFailure("x".into()), true));
    assert!(!fails_at_once(&EngineError::MaxRetriesExceeded, false));
    assert!(matches!(retries_exhausted(None), EngineError::MaxRetriesExceeded));
    assert!(continue_after_failure(true, false));
    assert!(!continue_after_failure(false, false));
}

#[test]
fn announce_parameters() {
    let state = initial_state(100, 0, Instant::now());
    let p = announce_params([1; 20], [2; 20], 6881, &state, 200, "K", "started", "10.0.0.2");
    assert_eq!(p.event, "&event=started");
    assert_eq!((p.port, p.numwant, p.left), (6881, 200, 100));
    assert_eq!(event_param(""), "");
    assert_eq!(http_version_for("HTTP/1.0"), HttpVersion::Http10);
    assert_eq!(http_version_for("HTTP/1.1"), HttpVersion::Http11);
}

#[test]
fn second_elapsed_announces_at_interval_and_on_completion() {
    let mut state = initial_state(3000, 0, Instant::now());
    state.interval = 3;
    // first second: transfer, no announce yet
    assert_eq!(second_elapsed(&mut state, 0, false, 100, 1000), (1, None));
    assert_eq!((state.uploaded, state.downloaded, state.left), (100, 1000, 2000));
    assert_eq!(second_elapsed(&mut state, 1, false, 100, 1000), (2, None));
    // third second: the download finishes and the interval has passed
    assert_eq!(second_elapsed(&mut state, 2, false, 100, 1000), (0, Some("completed")));
    assert_eq!((state.uploaded, state.downloaded, state.left), (300, 3000, 0));
    assert!(state.completed_sent);
    // later announces carry no event
    assert_eq!(second_elapsed(&mut state, 0, true, 100, 1000), (0, Some("")));
    assert_eq!(state.downloaded, 3000);

    let mut leeching = initial_state(1_000_000, 0, Instant::now());
    leeching.interval = 1;
    assert_eq!(second_elapsed(&mut leeching, 0, false, 0, 10), (0, Some("")));
    assert!(!leeching.completed_sent);
}

#[test]
fn after_announce_outcomes() {
    let mut state = initial_state(1000, 0, Instant::now());
    let ok = AnnounceResult { interval: 900, seeders: Some(1), leechers: None, warning: None };
    assert!(after_announce(&mut state, Ok(ok), false, false).is_none());
    assert_eq!((state.interval, state.announce_count), (900, 1));
    let stop = after_announce(&mut state, Err(EngineError::MaxRetriesExceeded), false, false);
    assert!(matches!(stop, Some(EngineError::MaxRetriesExceeded)));
    assert!(after_announce(&mut state, Err(EngineError::MaxRetriesExceeded), true, false).is_none());
    assert!(after_announce(&mut state, Err(EngineError::MaxRetriesExceeded), false, true).is_none());
    assert_eq!((state.interval, state.announce_count), (900, 1));
}

#[test]
fn transfer_keeps_downloaded_plus_left() {
    let mut state = initial_state(10_000, 25, Instant::now());
    let total = state.downloaded + state.left;
    assert_eq!(total, 10_000);
    for (up, down) in [(5, 3000u64), (0, 0), (7, 9000), (1, 1)] {
        let before = (state.uploaded, state.left);
        tick(&mut state, up, down);
        assert_eq!(state.downloaded + state.left, total);
        assert!(state.uploaded >= before.0 && state.left <= before.1);
    }
    assert_eq!(state.left, 0);
}

fn base_progress() -> StopProgress {
    StopProgress { uploaded: 0, downloaded: 0, elapsed_secs: 0, elapsed_nanos: 0, seeders: 0, leechers: 0 }
}

#[test]
fn never_stops() {
    let progress = StopProgress {
        uploaded: u64::MAX,
        downloaded: u64::MAX,
        elapsed_secs: 999999,
        elapsed_nanos: 0,
        seeders: u32::MAX,
        leechers: u32::MAX,
    };
    assert!(!target_reached(&StopTarget::Never, &progress));
}

#[test]
fn after_upload_not_met() {
    let progress = StopProgress { uploaded: 999, ..base_progress() };
    assert!(!target_reached(&StopTarget::AfterUpload(1000), &progress));
}

#[test]
fn after_upload_met() {
    let progress = StopProgress { uploaded: 1000, ..base_progress() };
    assert!(target_reached(&StopTarget::AfterUpload(1000), &progress));
}

#[test]
fn after_upload_exceeded() {
    let progress = StopProgress { uploaded: 2000, ..base_progress() };
    assert!(target_reached(&StopTarget::AfterUpload(1000), &progress));
}

#[test]
fn after_download_met() {
    let progress = StopProgress { downloaded: 5000, ..base_progress() };
    assert!(target_reached(&StopTarget::AfterDownload(5000), &progress));
}

#[test]
fn after_time_not_met() {
    let progress = StopProgress { elapsed_secs: 59, ..base_progress() };
    assert!(!target_reached(&StopTarget::AfterTime(60, 0), &progress));
}

#[test]
fn after_time_met() {
    let progress = StopProgress { elapsed_secs: 60, ..base_progress() };
    assert!(target_reached(&StopTarget::AfterTime(60, 0), &progress));
}

#[test]
fn after_time_compares_nanoseconds() {
    let progress = StopProgress { elapsed_secs: 60, elapsed_nanos: 499, ..base_progress() };
    assert!(!target_reached(&StopTarget::AfterTime(60, 500), &progress));
    let progress = StopProgress { elapsed_secs: 61, elapsed_nanos: 0, ..base_progress() };
    assert!(target_reached(&StopTarget::AfterTime(60, 500), &progress));
}

#[test]
fn after_seeders_met() {
    let progress = StopProgress { seeders: 10, ..base_progress() };
    assert!(target_reached(&StopTarget::AfterSeeders(10), &progress));
}

#[test]
fn after_leechers_not_met() {
    let progress = StopProgress { leechers: 4, ..base_progress() };
    assert!(!target_reached(&StopTarget::AfterLeechers(5), &progress));
}
