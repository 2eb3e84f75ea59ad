//! Speed simulation with two-level random variation.
//!
//! Level 1: A base speed is chosen randomly within a configured range at session start.
//! Level 2: Each announce cycle applies a small per-update variation on top of the base.
use vstd::prelude::*;

use crate::client::generator::{gen_range_inclusive, thread_rng};

verus! {

/// Configuration for simulated transfer speed.
#[derive(Debug, Clone)]
pub struct SpeedConfig {
    /// Minimum base upload speed in bytes/sec.
    pub upload_min: u64,
    /// Maximum base upload speed in bytes/sec.
    pub upload_max: u64,
    /// Minimum base download speed in bytes/sec.
    pub download_min: u64,
    /// Maximum base download speed in bytes/sec.
    pub download_max: u64,
    /// Per-update variation range in bytes/sec (applied as +/- to the base).
    pub variation: u64,
}

impl Default for SpeedConfig {
    fn default() -> (r: Self)
        ensures
            r.upload_min == 50 * 1024,
            r.upload_max == 150 * 1024,
            r.download_min == 50 * 1024,
            r.download_max == 150 * 1024,
            r.variation == 10 * 1024,
    {
        SpeedConfig {
            upload_min: 50 * 1024,
            upload_max: 150 * 1024,
            download_min: 50 * 1024,
            download_max: 150 * 1024,
            variation: 10 * 1024,
        }
    }
}

/// Tracks the current simulated speeds for a session.
#[derive(Debug, Clone)]
pub struct SpeedState {
    /// Base upload speed selected at session start.
    pub base_upload: u64,
    /// Base download speed selected at session start.
    pub base_download: u64,
    /// Current effective upload speed (base + variation).
    pub current_upload: u64,
    /// Current effective download speed (base + variation).
    pub current_download: u64,
}

/// A base speed moved by `delta`, at least 0.
pub open spec fn varied(base: u64, delta: int) -> int {
    if base + delta < 0 {
        0
    } else {
        base + delta
    }
}

/// Selects random base speeds within the configured range (Level 1).
pub fn init_speed(config: &SpeedConfig) -> (r: SpeedState)
    requires
        config.upload_min <= config.upload_max,
        config.download_min <= config.download_max,
    ensures
        config.upload_min <= r.base_upload <= config.upload_max,
        config.download_min <= r.base_download <= config.download_max,
        r.current_upload == r.base_upload,
        r.current_download == r.base_download,
{
    let mut rng = thread_rng();
    let base_upload = gen_range_inclusive(&mut rng, config.upload_min, config.upload_max);
    let base_download = gen_range_inclusive(&mut rng, config.download_min, config.download_max);
    SpeedState {
        base_upload,
        base_download,
        current_upload: base_upload,
        current_download: base_download,
    }
}

/// The speed a draw in `0..=2 * variation` gives: the base moved by the draw
/// less the variation, at least 0.
pub fn apply_variation(base: u64, draw: u64, variation: u64) -> (r: u64)
    requires
        draw <= 2 * variation,
        base + variation <= i64::MAX,
    ensures
        r == varied(base, draw - variation),
{
    if base + draw < variation {
        0
    } else {
        base + draw - variation
    }
}

/// Applies per-update random variation to the speeds (Level 2): each
/// current speed becomes its base moved by at most `variation` either way,
/// and at least 0. With no variation nothing changes.
pub fn vary_speed(state: &mut SpeedState, config: &SpeedConfig)
    requires
        config.variation <= i64::MAX / 2,
        old(state).base_upload + config.variation <= i64::MAX,
        old(state).base_download + config.variation <= i64::MAX,
    ensures
        final(state).base_upload == old(state).base_upload,
        final(state).base_download == old(state).base_download,
        config.variation == 0 ==> final(state).current_upload == old(state).current_upload
            && final(state).current_download == old(state).current_download,
        config.variation > 0 ==> exists|d: int|
            -config.variation <= d <= config.variation && final(state).current_upload == varied(
                old(state).base_upload,
                d,
            ),
        config.variation > 0 ==> exists|d: int|
            -config.variation <= d <= config.variation && final(state).current_download
                == varied(old(state).base_download, d),
{
    if config.variation > 0 {
        let mut rng = thread_rng();
        let up = gen_range_inclusive(&mut rng, 0, config.variation * 2);
        let down = gen_range_inclusive(&mut rng, 0, config.variation * 2);
        state.current_upload = apply_variation(state.base_upload, up, config.variation);
        state.current_download = apply_variation(state.base_download, down, config.variation);
        assert(-config.variation <= up - config.variation <= config.variation);
        assert(-config.variation <= down - config.variation <= config.variation);
    }
}

/// Calculates bytes transferred during an interval at the current speed
/// (saturating at `u64::MAX`).
pub fn bytes_for_interval(speed_bytes_per_sec: u64, interval_secs: u64) -> (r: u64)
    ensures
        r == if speed_bytes_per_sec * interval_secs > u64::MAX {
            u64::MAX as int
        } else {
            speed_bytes_per_sec * interval_secs
        },
{
    match speed_bytes_per_sec.checked_mul(interval_secs) {
        Some(v) => v,
        None => u64::MAX,
    }
}

/// A varied speed is the base moved by exactly the drawn amount, except
/// that it never goes below 0; so it stays within the variation of the
/// base.
pub proof fn law_varied(base: u64, delta: int)
    ensures
        varied(base, delta) >= 0,
        base + delta >= 0 ==> varied(base, delta) == base + delta,
        base + delta < 0 ==> varied(base, delta) == 0,
        base - (if delta < 0 { -delta } else { delta }) <= varied(base, delta) <= base + (if delta < 0 {
            -delta
        } else {
            delta
        }) || varied(base, delta) == 0,
{
}

} // verus!
