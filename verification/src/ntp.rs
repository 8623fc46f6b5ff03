//! Shared synchronization state and the rules that update and read it.
//!
//! Wall-clock instants are carried as signed milliseconds since the Unix
//! epoch; clock offsets as signed milliseconds. The state starts at the
//! epoch with a zero offset, which reads as "never synced" until the first
//! successful measurement is applied.
//!
//! Reading the clock itself is delegated to the system; every rule that
//! depends on the current time also exists as a pure function taking the
//! instant as an argument, and the clock-sampling entry points are thin
//! calls of those.

use vstd::prelude::*;

verus! {

/// The saturating value that `seconds_since_sync` reports when no age can
/// be computed: the state has never synced, or the clock ran backwards.
pub const STALE_SENTINEL_SECS: u64 = 9999;

/// Why a refresh failed: the server name did not resolve, the time-protocol
/// exchange failed, or it timed out.
#[derive(Clone, Copy, Debug, PartialEq, Eq, Structural)]
pub enum SyncError {
    Resolution,
    Protocol,
    Timeout,
}

/// One completed offset measurement against the time source: the measured
/// clock offset and the instant the measurement completed.
#[derive(Clone, Copy, Debug, PartialEq, Eq, Structural)]
pub struct Measurement {
    /// Measured clock offset in milliseconds (reference minus local, so
    /// that local plus offset approximates the reference clock).
    pub offset_ms: i64,
    /// Completion instant, in milliseconds since the Unix epoch.
    pub measured_at: i64,
}

impl Measurement {
    /// A measurement completes at a wall-clock instant, never before the epoch.
    pub open spec fn wf(self) -> bool {
        self.measured_at >= 0
    }
}

/// `a + b` held within the `i64` range.
pub open spec fn sat_add_i64(a: int, b: int) -> int {
    if a + b > i64::MAX {
        i64::MAX as int
    } else if a + b < i64::MIN {
        i64::MIN as int
    } else {
        a + b
    }
}

/// Whole seconds elapsed from `last` to `now`. The sentinel stands in where
/// no age exists: when `now` reads before `last` (the clock ran backwards)
/// and when `last` is the epoch start, which means the state has never
/// synced. A synced state's age is the true floor of the elapsed seconds,
/// however large.
pub open spec fn spec_seconds_since(last: int, now: int) -> int {
    if now < last {
        STALE_SENTINEL_SECS as int
    } else if last == 0 {
        STALE_SENTINEL_SECS as int
    } else {
        (now - last) / 1000
    }
}

/// One coherent reading of the shared state: every time-dependent field is
/// derived from a single clock sample.
pub struct Snapshot {
    /// Local clock plus the stored offset, at the sampled instant.
    pub adjusted_ms: i64,
    /// The stored offset, as displayed.
    pub offset_ms: i64,
    /// Age of the last successful sync at the sampled instant.
    pub seconds_since_sync: u64,
    /// The tracked server.
    pub server: String,
}

/// Shared synchronization state: one server, the most recent offset sample,
/// and the instant of the last successful measurement.
pub struct NtpSync {
    /// Most recently measured clock offset in milliseconds. Adding it to the
    /// local clock yields the corrected time.
    pub offset_ms: i64,
    /// Instant of the last successful measurement, in milliseconds since the
    /// Unix epoch; `0` (the epoch itself) means "never synced".
    pub last_sync: i64,
    /// The time-source host this state tracks.
    pub server: String,
}

/// Relies on `chrono::Utc::now` and `DateTime::timestamp_millis`: the current
/// wall clock as non-leap milliseconds since the Unix epoch. `Utc::now`
/// aborts when the system clock reads before the epoch, so a returned value
/// is never negative.
#[verifier::external_body]
fn now_unix_ms() -> (r: i64)
    ensures
        r >= 0,
{
    chrono::Utc::now().timestamp_millis()
}

impl NtpSync {
    /// A last-sync instant is a wall-clock reading, never before the epoch.
    pub open spec fn wf(self) -> bool {
        self.last_sync >= 0
    }

    /// Fresh state for the given server: zero offset, never synced.
    pub fn new(server: String) -> (s: Self)
        ensures
            s.offset_ms == 0,
            s.last_sync == 0,
            s.server == server,
            s.wf(),
    {
        Self { offset_ms: 0, last_sync: 0, server }
    }

    /// Applies the outcome of one refresh attempt. A successful measurement
    /// replaces the offset and the last-sync instant together, in one
    /// exclusive update; a failure leaves the state exactly as it was and
    /// hands the error back to the caller.
    pub fn apply_sync_result(&mut self, outcome: Result<Measurement, SyncError>) -> (r: Result<
        (),
        SyncError,
    >)
        requires
            old(self).wf(),
            outcome matches Ok(m) ==> m.wf(),
        ensures
            final(self).wf(),
            final(self).server == old(self).server,
            outcome matches Ok(m) ==> {
                &&& final(self).offset_ms == m.offset_ms
                &&& final(self).last_sync == m.measured_at
                &&& r is Ok
            },
            outcome matches Err(e) ==> {
                &&& *final(self) == *old(self)
                &&& r == Result::<(), SyncError>::Err(e)
            },
    {
        match outcome {
            Ok(m) => {
                self.offset_ms = m.offset_ms;
                self.last_sync = m.measured_at;
                Ok(())
            },
            Err(e) => Err(e),
        }
    }

    /// The corrected time at the instant `now_ms`: the clock reading plus
    /// the stored offset, held within the `i64` range.
    pub fn adjusted_time_at(&self, now_ms: i64) -> (t: i64)
        ensures
            t as int == sat_add_i64(now_ms as int, self.offset_ms as int),
    {
        match now_ms.checked_add(self.offset_ms) {
            Some(t) => t,
            None => if self.offset_ms > 0 {
                i64::MAX
            } else {
                i64::MIN
            },
        }
    }

    /// The corrected current time: the local clock sampled at the call,
    /// plus the stored offset. The result is always consistent with some
    /// non-negative clock reading.
    pub fn adjusted_time(&self) -> (t: i64)
        ensures
            exists|now: int| 0 <= now && t as int == sat_add_i64(now, self.offset_ms as int),
    {
        let now = now_unix_ms();
        self.adjusted_time_at(now)
    }

    /// Age of the last successful sync at the instant `now_ms`, in whole
    /// seconds; the sentinel where no age exists (never synced, or the
    /// clock ran backwards).
    pub fn seconds_since_sync_at(&self, now_ms: i64) -> (a: u64)
        requires
            self.wf(),
        ensures
            a as int == spec_seconds_since(self.last_sync as int, now_ms as int),
    {
        if now_ms < self.last_sync {
            STALE_SENTINEL_SECS
        } else if self.last_sync == 0 {
            STALE_SENTINEL_SECS
        } else {
            ((now_ms - self.last_sync) / 1000) as u64
        }
    }

    /// Age of the last successful sync at the call, in whole seconds,
    /// consistent with some non-negative clock reading; a never-synced
    /// state always reads as the sentinel.
    pub fn seconds_since_sync(&self) -> (a: u64)
        requires
            self.wf(),
        ensures
            exists|now: int| 0 <= now && a as int == spec_seconds_since(self.last_sync as int, now),
            self.last_sync == 0 ==> a == STALE_SENTINEL_SECS,
    {
        let now = now_unix_ms();
        self.seconds_since_sync_at(now)
    }

    /// One coherent reading of the state at the instant `now_ms`: adjusted
    /// time and sync age are both derived from that same instant.
    pub fn snapshot_at(&self, now_ms: i64) -> (s: Snapshot)
        requires
            self.wf(),
        ensures
            s.adjusted_ms as int == sat_add_i64(now_ms as int, self.offset_ms as int),
            s.offset_ms == self.offset_ms,
            s.seconds_since_sync as int == spec_seconds_since(self.last_sync as int, now_ms as int),
            s.server == self.server,
    {
        Snapshot {
            adjusted_ms: self.adjusted_time_at(now_ms),
            offset_ms: self.offset_ms,
            seconds_since_sync: self.seconds_since_sync_at(now_ms),
            server: self.server.clone(),
        }
    }

    /// One coherent reading of the state at the call: the clock is sampled
    /// once, and both time-dependent fields of the snapshot are derived from
    /// that single sample, so a reader never sees an adjusted time and a
    /// sync age taken at different instants.
    pub fn snapshot(&self) -> (s: Snapshot)
        requires
            self.wf(),
        ensures
            s.offset_ms == self.offset_ms,
            s.server == self.server,
            self.last_sync == 0 ==> s.seconds_since_sync == STALE_SENTINEL_SECS,
            exists|now: int|
                {
                    &&& 0 <= now
                    &&& s.adjusted_ms as int == sat_add_i64(now, self.offset_ms as int)
                    &&& s.seconds_since_sync as int == spec_seconds_since(
                        self.last_sync as int,
                        now,
                    )
                },
    {
        let now = now_unix_ms();
        self.snapshot_at(now)
    }
}

/// Two adjusted-time reads of the same state differ exactly by the elapsed
/// clock interval between them, as long as neither read saturates the
/// representable range: with no intervening refresh, time advances at the
/// local clock's rate and by nothing else.
pub proof fn lemma_adjusted_time_tracks_clock(s: NtpSync, n1: int, n2: int)
    requires
        i64::MIN <= n1 + s.offset_ms,
        n1 + s.offset_ms <= i64::MAX,
        i64::MIN <= n2 + s.offset_ms,
        n2 + s.offset_ms <= i64::MAX,
    ensures
        sat_add_i64(n2, s.offset_ms as int) - sat_add_i64(n1, s.offset_ms as int) == n2 - n1,
{
}

/// A never-synced state (last sync at the epoch start) reports the
/// saturating sentinel age at every clock reading, rather than a huge or
/// overflowing elapsed time.
pub proof fn lemma_never_synced_saturates(now: int)
    ensures
        spec_seconds_since(0, now) == STALE_SENTINEL_SECS as int,
{
}

} // verus!
