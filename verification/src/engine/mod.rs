//! The decisions of the announce engine.
//!
//! A session goes start -> periodic announce -> stop. Each second the
//! engine simulates transfer and decides whether to announce (at the
//! tracker's interval, or when forced) and with which event; failed
//! announces are retried with exponential backoff. The application runs
//! the loop, the timers and the network; every decision it takes is one of
//! the functions here.
pub mod listener;
pub mod speed;
pub mod stop;

use std::time::Instant;
use vstd::prelude::*;
use vstd::string::StringSliceAdditionalSpecFns;

use crate::network::http::{http_message, HttpError, HttpVersion};
use crate::strings::str_eq;
use crate::tracker::announce::AnnounceParams;
use crate::tracker::response::{TrackerResponse, TrackerResponseError};

verus! {

/// A point in time (`std::time::Instant`), carried as an opaque value.
#[verifier::external_type_specification]
#[verifier::external_body]
pub struct ExInstant(Instant);

/// Mutable state tracked across announces.
#[derive(Debug, Clone, Copy)]
pub struct EngineState {
    /// Total bytes reported as uploaded.
    pub uploaded: u64,
    /// Total bytes reported as downloaded.
    pub downloaded: u64,
    /// Bytes remaining.
    pub left: u64,
    /// Number of successful announces.
    pub announce_count: u32,
    /// Whether "completed" event has been sent.
    pub completed_sent: bool,
    /// Last known seeder count.
    pub seeders: u32,
    /// Last known leecher count.
    pub leechers: u32,
    /// Current announce interval from tracker.
    pub interval: u64,
    /// Session start time.
    pub started_at: Instant,
}

/// Result of a single announce.
#[derive(Debug)]
pub struct AnnounceResult {
    /// Tracker-specified interval for next announce.
    pub interval: u64,
    /// Number of seeders.
    pub seeders: Option<u64>,
    /// Number of leechers.
    pub leechers: Option<u64>,
    /// Warning message from tracker.
    pub warning: Option<String>,
}

/// Errors from the announce engine.
#[derive(Debug)]
pub enum EngineError {
    /// HTTP communication error.
    Http(HttpError),
    /// Tracker returned a failure reason.
    TrackerFailure(String),
    /// Tracker response parsing error.
    TrackerResponse(TrackerResponseError),
    /// I/O error (e.g., listener binding), with its message.
    Io(String),
    /// Maximum retry attempts exceeded.
    MaxRetriesExceeded,
}

/// Whether `m` is the description of the engine error `e`; that of an HTTP
/// error ends with the HTTP error's description.
pub open spec fn engine_message(e: EngineError, m: Seq<char>) -> bool {
    match e {
        EngineError::Http(h) => "http error: "@.is_prefix_of(m) && http_message(
            h@,
            m.skip("http error: "@.len() as int),
        ),
        EngineError::TrackerFailure(s) => m == "tracker failure: "@ + s@,
        EngineError::TrackerResponse(t) => m == "tracker response error: "@ + t@.message(),
        EngineError::Io(s) => m == "io error: "@ + s@,
        EngineError::MaxRetriesExceeded => m == "maximum retry attempts exceeded"@,
    }
}

impl EngineError {
    /// The human-readable description of the error.
    pub fn message(&self) -> (r: String)
        ensures
            engine_message(*self, r@),
    {
        match self {
            EngineError::Http(h) => {
                let inner = h.message();
                let r = String::from_str("http error: ").concat(inner.as_str());
                proof {
                    reveal_strlit("http error: ");
                    assert(r@.skip("http error: "@.len() as int) =~= inner@);
                }
                r
            },
            EngineError::TrackerFailure(s) => String::from_str("tracker failure: ").concat(
                s.as_str(),
            ),
            EngineError::TrackerResponse(t) => {
                let inner = t.message();
                String::from_str("tracker response error: ").concat(inner.as_str())
            },
            EngineError::Io(s) => String::from_str("io error: ").concat(s.as_str()),
            EngineError::MaxRetriesExceeded => String::from_str("maximum retry attempts exceeded"),
        }
    }
}

// ---------------------------------------------------------------------------
// Session start and transfer simulation
// ---------------------------------------------------------------------------

/// The state a session starts in: `initial_downloaded_percent` percent of
/// the torrent counts as downloaded, the rest is left; a session with
/// nothing left has nothing to complete.
pub fn initial_state(total_size: u64, initial_downloaded_percent: u8, started_at: Instant) -> (r:
    EngineState)
    requires
        total_size * initial_downloaded_percent <= u64::MAX,
    ensures
        r.downloaded == total_size * initial_downloaded_percent / 100,
        r.left == if total_size >= r.downloaded {
            total_size - r.downloaded
        } else {
            0
        },
        r.uploaded == 0,
        r.announce_count == 0,
        r.completed_sent == (r.left == 0),
        r.seeders == 0,
        r.leechers == 0,
        r.interval == 1800,
        r.started_at == started_at,
{
    let initial_downloaded = total_size * initial_downloaded_percent as u64 / 100;
    let left = if total_size >= initial_downloaded {
        total_size - initial_downloaded
    } else {
        0
    };
    EngineState {
        uploaded: 0,
        downloaded: initial_downloaded,
        left,
        announce_count: 0,
        completed_sent: left == 0,
        seeders: 0,
        leechers: 0,
        interval: 1800,
        started_at,
    }
}

/// `a + b`, saturating at `u64::MAX`.
pub open spec fn sat_add(a: u64, b: u64) -> u64 {
    if a + b > u64::MAX {
        u64::MAX
    } else {
        (a + b) as u64
    }
}

/// The state after one second of simulated transfer (see [`tick`]).
pub open spec fn ticked(s: EngineState, upload_bytes: u64, download_bytes: u64) -> EngineState {
    let actual: u64 = if download_bytes < s.left {
        download_bytes
    } else {
        s.left
    };
    EngineState {
        uploaded: sat_add(s.uploaded, upload_bytes),
        downloaded: if s.left > 0 {
            sat_add(s.downloaded, actual)
        } else {
            s.downloaded
        },
        left: if s.left > 0 {
            (s.left - actual) as u64
        } else {
            0
        },
        ..s
    }
}

/// One second of simulated transfer: the upload is counted (saturating),
/// and while something is left the download is counted up to what is left.
pub fn tick(state: &mut EngineState, upload_bytes: u64, download_bytes: u64)
    ensures
        *final(state) == ticked(*old(state), upload_bytes, download_bytes),
{
    state.uploaded = state.uploaded.saturating_add(upload_bytes);
    if state.left > 0 {
        let actual = if download_bytes < state.left {
            download_bytes
        } else {
            state.left
        };
        state.downloaded = state.downloaded.saturating_add(actual);
        state.left = state.left - actual;
    }
}

// ---------------------------------------------------------------------------
// Announce decisions
// ---------------------------------------------------------------------------

/// One second of the engine's loop: the transfer of that second (as
/// [`tick`]), then, when an announce is due (forced, or the tracker's
/// interval has passed since the last one), the event to send with it (as
/// [`interval_event`]). Returns the seconds since the last announce (0 when
/// one is due) and the event of the announce to send, if one is due.
pub fn second_elapsed(
    state: &mut EngineState,
    secs_since_announce: u64,
    force: bool,
    upload_bytes: u64,
    download_bytes: u64,
) -> (r: (u64, Option<&'static str>))
    requires
        secs_since_announce < u64::MAX,
    ensures
        ({
            let t = ticked(*old(state), upload_bytes, download_bytes);
            let due = force || secs_since_announce + 1 >= t.interval;
            let completing = t.left == 0 && !t.completed_sent;
            &&& r.0 == if due {
                0
            } else {
                secs_since_announce + 1
            }
            &&& !due ==> r.1 is None && *final(state) == t
            &&& (due && completing) ==> (r.1 matches Some(e) && e@ == "completed"@ && *final(state)
                == (EngineState { completed_sent: true, ..t }))
            &&& (due && !completing) ==> (r.1 matches Some(e) && e@ == ""@ && *final(state) == t)
        }),
{
    tick(state, upload_bytes, download_bytes);
    let secs = secs_since_announce + 1;
    if should_announce(force, secs, state.interval) {
        let event = interval_event(state);
        (0, Some(event))
    } else {
        (secs, None)
    }
}

/// Whether to announce now: when forced, or once the interval has passed.
pub fn should_announce(force: bool, secs_since_announce: u64, interval: u64) -> (r: bool)
    ensures
        r == (force || secs_since_announce >= interval),
{
    force || secs_since_announce >= interval
}

/// The event of a regular announce: `completed` the first time nothing is
/// left (which is then recorded as sent), else none.
pub fn interval_event(state: &mut EngineState) -> (r: &'static str)
    ensures
        old(state).left == 0 && !old(state).completed_sent ==> r@ == "completed"@
            && final(state).completed_sent,
        !(old(state).left == 0 && !old(state).completed_sent) ==> r@ == ""@
            && final(state).completed_sent == old(state).completed_sent,
        final(state).uploaded == old(state).uploaded,
        final(state).downloaded == old(state).downloaded,
        final(state).left == old(state).left,
        final(state).announce_count == old(state).announce_count,
        final(state).seeders == old(state).seeders,
        final(state).leechers == old(state).leechers,
        final(state).interval == old(state).interval,
        final(state).started_at == old(state).started_at,
{
    if state.left == 0 && !state.completed_sent {
        state.completed_sent = true;
        "completed"
    } else {
        ""
    }
}

/// A successful announce: the tracker's interval is adopted and the
/// announce counted.
pub fn record_announce(state: &mut EngineState, interval: u64)
    requires
        old(state).announce_count < u32::MAX,
    ensures
        final(state).interval == interval,
        final(state).announce_count == old(state).announce_count + 1,
        final(state).uploaded == old(state).uploaded,
        final(state).downloaded == old(state).downloaded,
        final(state).left == old(state).left,
        final(state).completed_sent == old(state).completed_sent,
        final(state).seeders == old(state).seeders,
        final(state).leechers == old(state).leechers,
        final(state).started_at == old(state).started_at,
{
    state.interval = interval;
    state.announce_count = state.announce_count + 1;
}

/// Whether the session goes on after an announce failed for good: only a
/// forced announce, or a session that ignores failures, goes on.
pub fn continue_after_failure(force: bool, ignore_failure: bool) -> (r: bool)
    ensures
        r == (force || ignore_failure),
{
    force || ignore_failure
}

/// What the loop does with the outcome of an interval or forced announce:
/// a success is recorded (as [`record_announce`]) and the loop goes on; a
/// failure leaves the state as it is, and stops the loop with that error
/// unless the announce was forced or failures are ignored.
pub fn after_announce(
    state: &mut EngineState,
    outcome: Result<AnnounceResult, EngineError>,
    force: bool,
    ignore_failure: bool,
) -> (r: Option<EngineError>)
    requires
        outcome is Ok ==> old(state).announce_count < u32::MAX,
    ensures
        match outcome {
            Ok(res) => r is None && *final(state) == (EngineState {
                interval: res.interval,
                announce_count: (old(state).announce_count + 1) as u32,
                ..*old(state)
            }),
            Err(e) => *final(state) == *old(state) && r == if force || ignore_failure {
                None
            } else {
                Some(e)
            },
        },
{
    match outcome {
        Ok(res) => {
            record_announce(state, res.interval);
            None
        },
        Err(e) => {
            if continue_after_failure(force, ignore_failure) {
                None
            } else {
                Some(e)
            }
        },
    }
}

/// The seconds to wait before retry number `attempt`: 2 to the power
/// `min(attempt, 5)`.
pub open spec fn backoff(attempt: nat) -> nat
    decreases attempt,
{
    if attempt == 0 {
        1
    } else if attempt >= 5 {
        32
    } else {
        2 * backoff((attempt - 1) as nat)
    }
}

/// The seconds to wait before retry number `attempt`.
pub fn retry_backoff_secs(attempt: u32) -> (r: u64)
    ensures
        r == backoff(attempt as nat),
{
    proof {
        reveal_with_fuel(backoff, 6);
    }
    if attempt == 0 {
        1
    } else if attempt == 1 {
        2
    } else if attempt == 2 {
        4
    } else if attempt == 3 {
        8
    } else if attempt == 4 {
        16
    } else {
        32
    }
}

/// Whether an announce error ends the retries at once: a tracker failure
/// does, unless failures are ignored.
pub fn fails_at_once(error: &EngineError, ignore_failure: bool) -> (r: bool)
    ensures
        r == (error is TrackerFailure && !ignore_failure),
{
    match error {
        EngineError::TrackerFailure(_) => !ignore_failure,
        _ => false,
    }
}

/// The error of an announce whose retries ran out: the last error, or
/// `MaxRetriesExceeded` when there was none.
pub fn retries_exhausted(last_error: Option<EngineError>) -> (r: EngineError)
    ensures
        match last_error {
            Some(e) => r == e,
            None => r is MaxRetriesExceeded,
        },
{
    match last_error {
        Some(e) => e,
        None => EngineError::MaxRetriesExceeded,
    }
}

/// The `event` query parameter: none for a regular announce, else
/// `&event=` and the event.
pub open spec fn event_param_spec(event: Seq<char>) -> Seq<char> {
    if event.len() == 0 {
        Seq::empty()
    } else {
        "&event="@ + event
    }
}

/// The `event` query parameter of an announce.
pub fn event_param(event: &str) -> (r: String)
    ensures
        r@ == event_param_spec(event@),
{
    proof {
        reveal_strlit("");
        if event@.len() == 0 {
            assert(event@ =~= ""@);
        }
    }
    if str_eq(event, "") {
        String::new()
    } else {
        String::from_str("&event=").concat(event)
    }
}

/// The parameters of an announce for the current state.
pub fn announce_params(
    info_hash: [u8; 20],
    peer_id: [u8; 20],
    port: u16,
    state: &EngineState,
    numwant: u16,
    key: &str,
    event: &str,
    local_ip: &str,
) -> (r: AnnounceParams)
    ensures
        r.info_hash == info_hash,
        r.peer_id == peer_id,
        r.port == port,
        r.uploaded == state.uploaded,
        r.downloaded == state.downloaded,
        r.left == state.left,
        r.numwant == numwant,
        r.key@ == key@,
        r.event@ == event_param_spec(event@),
        r.local_ip@ == local_ip@,
{
    AnnounceParams {
        info_hash,
        peer_id,
        port,
        uploaded: state.uploaded,
        downloaded: state.downloaded,
        left: state.left,
        numwant: numwant as u32,
        key: String::from_str(key),
        event: event_param(event),
        local_ip: String::from_str(local_ip),
    }
}

/// The HTTP version a profile asks for: 1.0 when it says `HTTP/1.0`, else 1.1.
pub fn http_version_for(protocol: &str) -> (r: HttpVersion)
    ensures
        r == if protocol@ == "HTTP/1.0"@ {
            HttpVersion::Http10
        } else {
            HttpVersion::Http11
        },
{
    if str_eq(protocol, "HTTP/1.0") {
        HttpVersion::Http10
    } else {
        HttpVersion::Http11
    }
}

/// A count reported by the tracker, as the `u32` the state keeps (the low
/// 32 bits).
pub open spec fn low32(n: u64) -> u32 {
    (n % 0x1_0000_0000) as u32
}

/// Takes in a tracker's answer: the swarm counts it reports are kept, and
/// the result of the announce returned.
pub fn apply_response(state: &mut EngineState, resp: TrackerResponse) -> (r: AnnounceResult)
    ensures
        final(state).seeders == match resp.complete {
            Some(c) => low32(c),
            None => old(state).seeders,
        },
        final(state).leechers == match resp.incomplete {
            Some(c) => low32(c),
            None => old(state).leechers,
        },
        final(state).uploaded == old(state).uploaded,
        final(state).downloaded == old(state).downloaded,
        final(state).left == old(state).left,
        final(state).announce_count == old(state).announce_count,
        final(state).completed_sent == old(state).completed_sent,
        final(state).interval == old(state).interval,
        final(state).started_at == old(state).started_at,
        r.interval == resp.interval,
        r.seeders == resp.complete,
        r.leechers == resp.incomplete,
        r.warning == resp.warning_message,
{
    if let Some(complete) = resp.complete {
        state.seeders = (complete % 0x1_0000_0000) as u32;
    }
    if let Some(incomplete) = resp.incomplete {
        state.leechers = (incomplete % 0x1_0000_0000) as u32;
    }
    AnnounceResult {
        interval: resp.interval,
        seeders: resp.complete,
        leechers: resp.incomplete,
        warning: resp.warning_message,
    }
}

/// The engine error of a response that could not be used: a tracker
/// failure keeps its reason, any other error is passed on.
pub fn response_error(e: TrackerResponseError) -> (r: EngineError)
    ensures
        match e {
            TrackerResponseError::TrackerFailure(reason) => r == EngineError::TrackerFailure(
                reason,
            ),
            other => r == EngineError::TrackerResponse(other),
        },
{
    match e {
        TrackerResponseError::TrackerFailure(reason) => EngineError::TrackerFailure(reason),
        other => EngineError::TrackerResponse(other),
    }
}

/// A second of transfer keeps what was downloaded plus what is left (as
/// long as that sum fits in a `u64`, which it does when it is the torrent's
/// size): the download only moves bytes from "left" to "downloaded". What
/// was uploaded never decreases, and what is left never grows.
pub proof fn law_tick_conserves_size(s: EngineState, upload_bytes: u64, download_bytes: u64)
    requires
        s.downloaded + s.left <= u64::MAX,
    ensures
        ticked(s, upload_bytes, download_bytes).downloaded + ticked(s, upload_bytes, download_bytes).left
            == s.downloaded + s.left,
        ticked(s, upload_bytes, download_bytes).uploaded >= s.uploaded,
        ticked(s, upload_bytes, download_bytes).left <= s.left,
{
}

/// The "completed" event is sent at most once: once it has been sent, a
/// second of transfer never makes the session one that still has to send
/// it, so no later announce carries it (see [`second_elapsed`]).
pub proof fn law_completed_sent_once(s: EngineState, upload_bytes: u64, download_bytes: u64)
    requires
        s.completed_sent,
    ensures
        ticked(s, upload_bytes, download_bytes).completed_sent,
        !(ticked(s, upload_bytes, download_bytes).left == 0 && !ticked(
            s,
            upload_bytes,
            download_bytes,
        ).completed_sent),
{
}

/// A second of transfer counts the upload in full (up to the largest `u64`)
/// and the download up to what is left, moving exactly those bytes from
/// "left" to "downloaded"; nothing else in the state changes.
pub proof fn law_tick_counts(s: EngineState, upload_bytes: u64, download_bytes: u64)
    ensures
        ({
            let t = ticked(s, upload_bytes, download_bytes);
            let moved = if download_bytes < s.left {
                download_bytes as int
            } else {
                s.left as int
            };
            &&& t.uploaded == (if s.uploaded + upload_bytes > u64::MAX {
                u64::MAX as int
            } else {
                s.uploaded + upload_bytes
            })
            &&& t.left == s.left - moved
            &&& s.downloaded + moved <= u64::MAX ==> t.downloaded == s.downloaded + moved
            &&& t.announce_count == s.announce_count && t.completed_sent == s.completed_sent
            &&& t.seeders == s.seeders && t.leechers == s.leechers && t.interval == s.interval
            &&& t.started_at == s.started_at
        }),
{
}

/// Retries wait 1 second first and twice as long each time after, up to
/// 32 seconds: the wait never exceeds 32 seconds and stays there from the
/// fifth retry on.
pub proof fn law_retry_backoff(attempt: nat)
    ensures
        backoff(0) == 1,
        attempt < 5 ==> backoff(attempt + 1) == 2 * backoff(attempt),
        attempt >= 5 ==> backoff(attempt) == 32,
        1 <= backoff(attempt) <= 32,
{
    reveal_with_fuel(backoff, 6);
    if attempt < 5 {
        assert(attempt == 0 || attempt == 1 || attempt == 2 || attempt == 3 || attempt == 4);
    }
}

/// The event parameter is empty for a regular announce; otherwise it is
/// `&event=` followed by exactly the event.
pub proof fn law_event_param(event: Seq<char>)
    ensures
        event.len() == 0 ==> event_param_spec(event).len() == 0,
        event.len() > 0 ==> event_param_spec(event).take(7) == "&event="@ && event_param_spec(
            event,
        ).skip(7) == event,
{
    reveal_strlit("&event=");
    if event.len() > 0 {
        assert(event_param_spec(event).take(7) =~= "&event="@);
        assert(event_param_spec(event).skip(7) =~= event);
    }
}

} // verus!
