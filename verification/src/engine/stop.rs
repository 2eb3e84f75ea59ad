//! The state that stop conditions are evaluated on.
use std::time::Duration;
use vstd::prelude::*;

verus! {

/// Snapshot of engine state used for stop condition evaluation.
#[derive(Debug, Clone, Copy)]
pub struct StopCheckState {
    pub uploaded: u64,
    pub downloaded: u64,
    pub elapsed: Duration,
    pub seeders: u32,
    pub leechers: u32,
}

/// A stop condition whose target is a whole number: bytes sent or
/// received, time elapsed, or peers seen. A ratio target is a fraction and
/// is decided by the caller.
#[derive(Debug, Clone, Copy, PartialEq, Eq)]
pub enum StopTarget {
    /// Never stop.
    Never,
    /// Stop once this many bytes have been uploaded.
    AfterUpload(u64),
    /// Stop once this many bytes have been downloaded.
    AfterDownload(u64),
    /// Stop once this much time has elapsed, in whole seconds and the
    /// nanoseconds past them.
    AfterTime(u64, u32),
    /// Stop once the swarm has at least this many seeders.
    AfterSeeders(u32),
    /// Stop once the swarm has at least this many leechers.
    AfterLeechers(u32),
}

/// The engine's progress as plain counts; the elapsed time is whole seconds
/// and the nanoseconds past them.
#[derive(Debug, Clone, Copy)]
pub struct StopProgress {
    pub uploaded: u64,
    pub downloaded: u64,
    pub elapsed_secs: u64,
    pub elapsed_nanos: u32,
    pub seeders: u32,
    pub leechers: u32,
}

/// Whether `progress` has reached `target`.
pub open spec fn target_reached_spec(target: StopTarget, progress: StopProgress) -> bool {
    match target {
        StopTarget::Never => false,
        StopTarget::AfterUpload(n) => progress.uploaded >= n,
        StopTarget::AfterDownload(n) => progress.downloaded >= n,
        StopTarget::AfterTime(secs, nanos) => progress.elapsed_secs > secs || (progress.elapsed_secs
            == secs && progress.elapsed_nanos >= nanos),
        StopTarget::AfterSeeders(n) => progress.seeders >= n,
        StopTarget::AfterLeechers(n) => progress.leechers >= n,
    }
}

/// Checks whether a whole-number stop condition has been met.
pub fn target_reached(target: &StopTarget, progress: &StopProgress) -> (r: bool)
    ensures
        r == target_reached_spec(*target, *progress),
{
    match *target {
        StopTarget::Never => false,
        StopTarget::AfterUpload(n) => progress.uploaded >= n,
        StopTarget::AfterDownload(n) => progress.downloaded >= n,
        StopTarget::AfterTime(secs, nanos) => progress.elapsed_secs > secs || (progress.elapsed_secs
            == secs && progress.elapsed_nanos >= nanos),
        StopTarget::AfterSeeders(n) => progress.seeders >= n,
        StopTarget::AfterLeechers(n) => progress.leechers >= n,
    }
}

/// Each stop target watches its own quantity and is reached once that
/// quantity is at least the target: never for `Never`; uploaded bytes,
/// downloaded bytes, seeders and leechers each against their own count; and
/// elapsed time, taken as a whole number of nanoseconds, against the target
/// time taken the same way.
pub proof fn law_stop_targets(p: StopProgress, bytes: u64, peers: u32, secs: u64, nanos: u32)
    requires
        p.elapsed_nanos < 1_000_000_000,
        nanos < 1_000_000_000,
    ensures
        !target_reached_spec(StopTarget::Never, p),
        target_reached_spec(StopTarget::AfterUpload(bytes), p) == (p.uploaded >= bytes),
        target_reached_spec(StopTarget::AfterDownload(bytes), p) == (p.downloaded >= bytes),
        target_reached_spec(StopTarget::AfterSeeders(peers), p) == (p.seeders >= peers),
        target_reached_spec(StopTarget::AfterLeechers(peers), p) == (p.leechers >= peers),
        target_reached_spec(StopTarget::AfterTime(secs, nanos), p) == (p.elapsed_secs * 1_000_000_000
            + p.elapsed_nanos >= secs * 1_000_000_000 + nanos),
{
    let (es, en) = (p.elapsed_secs as int, p.elapsed_nanos as int);
    let (ts, tn) = (secs as int, nanos as int);
    assert((es > ts || (es == ts && en >= tn)) == (es * 1_000_000_000 + en >= ts * 1_000_000_000 + tn))
        by (nonlinear_arith)
        requires
            0 <= en < 1_000_000_000,
            0 <= tn < 1_000_000_000,
    ;
}

} // verus!
