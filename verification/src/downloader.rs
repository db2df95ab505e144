//! The download protocol: retry with exponential backoff, and fractional
//! progress/ETA reporting.
//!
//! The HTTP transfer itself is I/O and lives outside this library. What is
//! verified here is every decision the transfer loop makes: when a failed
//! attempt earns another try and after what delay, how many bytes are
//! accounted, when a progress pair is due (roughly every 200 ms of wall time
//! and always on the final chunk), what exact (percent, etaSeconds) pair is
//! reported, and that reported percents only ever grow, ending at 100.

use vstd::prelude::*;

use vstd::arithmetic::div_mod::{
    lemma_div_by_multiple,
    lemma_div_is_ordered,
    lemma_div_pos_is_pos,
};
use vstd::arithmetic::power2::{lemma_pow2_strictly_increases, pow2};

verus! {

/// The integer percent of a download: bytes so far against the total.
pub open spec fn percent_spec(downloaded: int, total: int) -> int {
    downloaded * 100 / total
}

/// Percents are between 0 and 100 while the byte count stays within the
/// total.
pub proof fn lemma_percent_bounds(d: int, t: int)
    requires
        0 <= d <= t,
        0 < t,
    ensures
        0 <= percent_spec(d, t) <= 100,
{
    lemma_div_pos_is_pos(d * 100, t);
    lemma_div_is_ordered(d * 100, t * 100, t);
    lemma_div_by_multiple(100, t);
    assert(t * 100 == 100 * t);
}

/// Progress monotonicity: with a fixed total, the percent never decreases as
/// bytes accumulate.
pub proof fn lemma_percent_monotone(d1: int, d2: int, t: int)
    requires
        0 <= d1 <= d2 <= t,
        0 < t,
    ensures
        percent_spec(d1, t) <= percent_spec(d2, t),
{
    lemma_div_is_ordered(d1 * 100, d2 * 100, t);
}

/// A finished download always reports exactly 100 percent.
pub proof fn lemma_percent_complete(t: int)
    requires
        0 < t,
    ensures
        percent_spec(t, t) == 100,
{
    lemma_div_by_multiple(100, t);
    assert(t * 100 == 100 * t);
}

/// The integer percent of `downloaded` bytes out of `total`.
fn compute_percent(downloaded: u64, total: u64) -> (r: u8)
    requires
        total > 0,
        downloaded <= total,
    ensures
        r as int == percent_spec(downloaded as int, total as int),
{
    proof {
        lemma_percent_bounds(downloaded as int, total as int);
    }
    let p: u128 = (downloaded as u128) * 100 / (total as u128);
    p as u8
}

/// The estimated seconds left, from bytes so far and a running throughput
/// estimate (bytes divided by elapsed time). Zero until at least one byte
/// and one millisecond have gone by; capped at the largest representable
/// count of seconds.
pub open spec fn eta_spec(downloaded: int, total: int, elapsed_ms: int) -> int {
    if downloaded > 0 && elapsed_ms > 0 {
        let e = (total - downloaded) * elapsed_ms / downloaded / 1000;
        if e > u64::MAX as int {
            u64::MAX as int
        } else {
            e
        }
    } else {
        0
    }
}

/// The estimated seconds left for a download.
fn compute_eta(downloaded: u64, total: u64, elapsed_ms: u64) -> (r: u64)
    requires
        downloaded <= total,
    ensures
        r as int == eta_spec(downloaded as int, total as int, elapsed_ms as int),
{
    if downloaded > 0 && elapsed_ms > 0 {
        let remaining: u128 = (total - downloaded) as u128;
        proof {
            vstd::arithmetic::mul::lemma_mul_upper_bound(
                remaining as int,
                u64::MAX as int,
                elapsed_ms as int,
                u64::MAX as int,
            );
        }
        let prod: u128 = remaining * (elapsed_ms as u128);
        let e: u128 = prod / (downloaded as u128) / 1000;
        proof {
            lemma_div_pos_is_pos((total - downloaded) * elapsed_ms as int, downloaded as int);
            lemma_div_pos_is_pos(
                (total - downloaded) * elapsed_ms as int / downloaded as int,
                1000,
            );
        }
        if e > u64::MAX as u128 {
            u64::MAX
        } else {
            e as u64
        }
    } else {
        0
    }
}

/// The retry schedule of one file download: a fixed small ceiling of
/// attempts, with the delay before each retry doubling from a two-second
/// base.
pub struct DownloadRetry {
    /// How many attempts in all are allowed.
    pub max_attempts: u64,
    /// How many attempts have failed so far.
    pub failures: u64,
}

impl DownloadRetry {
    /// The schedule's bookkeeping stays within its ceiling, and the ceiling
    /// is small enough that every backoff delay fits comfortably.
    pub open spec fn wf(self) -> bool {
        self.failures <= self.max_attempts && self.max_attempts <= 32
    }

    /// A fresh schedule allowing `max_attempts` attempts.
    pub fn new(max_attempts: u64) -> (r: DownloadRetry)
        requires
            1 <= max_attempts <= 32,
        ensures
            r.wf(),
            r.max_attempts == max_attempts,
            r.failures == 0,
    {
        DownloadRetry { max_attempts, failures: 0 }
    }

    /// Whether another attempt may be made.
    pub fn can_attempt(&self) -> (r: bool)
        ensures
            r == (self.failures < self.max_attempts),
    {
        self.failures < self.max_attempts
    }

    /// Record a failed attempt. Returns the backoff delay, in seconds, to
    /// wait before the next attempt — two seconds doubled per failure — or
    /// nothing once the ceiling is exhausted and the file is abandoned.
    pub fn on_failure(&mut self) -> (r: Option<u64>)
        requires
            old(self).wf(),
            old(self).failures < old(self).max_attempts,
        ensures
            final(self).wf(),
            final(self).max_attempts == old(self).max_attempts,
            final(self).failures == old(self).failures + 1,
            final(self).failures < final(self).max_attempts ==> (r matches Some(d) && d as nat
                == pow2(final(self).failures as nat)),
            final(self).failures == final(self).max_attempts ==> r is None,
    {
        self.failures = self.failures + 1;
        if self.failures < self.max_attempts {
            Some(pow2_u64(self.failures))
        } else {
            None
        }
    }
}

/// Two raised to a small exponent.
fn pow2_u64(e: u64) -> (r: u64)
    requires
        e <= 32,
    ensures
        r as nat == pow2(e as nat),
{
    proof {
        vstd::arithmetic::power2::lemma2_to64();
    }
    let mut r: u64 = 1;
    let mut i: u64 = 0;
    while i < e
        invariant
            i <= e,
            e <= 32,
            r as nat == pow2(i as nat),
        decreases e - i,
    {
        proof {
            lemma_pow2_strictly_increases(i as nat, 32);
            vstd::arithmetic::power2::lemma2_to64();
        }
        r = r * 2;
        i = i + 1;
        proof {
            vstd::arithmetic::power2::lemma_pow2_unfold(i as nat);
        }
    }
    r
}

/// The byte and timing bookkeeping of one in-flight file transfer, and the
/// policy for when a progress pair is reported.
pub struct ProgressTracker {
    /// The file's size in bytes, as announced by the server; zero when the
    /// server did not announce one, in which case nothing is reported.
    pub total: u64,
    /// Bytes received so far.
    pub downloaded: u64,
    /// When the transfer began, in milliseconds of wall time.
    pub started_ms: u64,
    /// When a pair was last reported.
    pub last_emit_ms: u64,
    /// The last reported percent.
    pub last_percent: u8,
}

/// How much wall time must pass between two reports, in milliseconds.
pub open spec fn emit_interval_ms() -> int {
    200
}

impl ProgressTracker {
    /// The byte count stays within the total, timestamps only grow, and the
    /// last reported percent never runs ahead of the bytes received.
    pub open spec fn wf(self) -> bool {
        &&& self.downloaded <= self.total
        &&& self.started_ms <= self.last_emit_ms
        &&& (self.total > 0 ==> self.last_percent as int <= percent_spec(
            self.downloaded as int,
            self.total as int,
        ))
    }

    /// A fresh tracker for a transfer beginning now.
    pub fn new(total: u64, now_ms: u64) -> (r: ProgressTracker)
        ensures
            r.wf(),
            r.total == total,
            r.downloaded == 0,
            r.started_ms == now_ms,
            r.last_emit_ms == now_ms,
            r.last_percent == 0,
    {
        proof {
            if total > 0 {
                lemma_div_pos_is_pos(0, total as int);
            }
        }
        ProgressTracker {
            total,
            downloaded: 0,
            started_ms: now_ms,
            last_emit_ms: now_ms,
            last_percent: 0,
        }
    }

    /// Account one received chunk. A `(percent, etaSeconds)` pair is
    /// reported exactly when the total is known and either the report
    /// interval has passed or this was the final chunk; reported percents
    /// never decrease, and the pair for the final chunk says 100.
    pub fn on_chunk(&mut self, bytes: u64, now_ms: u64) -> (r: Option<(u8, u64)>)
        requires
            old(self).wf(),
            old(self).downloaded + bytes <= old(self).total,
            now_ms >= old(self).last_emit_ms,
        ensures
            final(self).wf(),
            final(self).total == old(self).total,
            final(self).started_ms == old(self).started_ms,
            final(self).downloaded == old(self).downloaded + bytes,
            r is Some <==> (old(self).total > 0 && (now_ms - old(self).last_emit_ms
                >= emit_interval_ms() || old(self).downloaded + bytes == old(self).total)),
            match r {
                Some(pair) => {
                    &&& pair.0 as int == percent_spec(
                        final(self).downloaded as int,
                        final(self).total as int,
                    )
                    &&& pair.1 as int == eta_spec(
                        final(self).downloaded as int,
                        final(self).total as int,
                        now_ms - final(self).started_ms,
                    )
                    &&& pair.0 >= old(self).last_percent
                    &&& (final(self).downloaded == final(self).total ==> pair.0 == 100)
                    &&& final(self).last_emit_ms == now_ms
                    &&& final(self).last_percent == pair.0
                },
                None => {
                    &&& final(self).last_emit_ms == old(self).last_emit_ms
                    &&& final(self).last_percent == old(self).last_percent
                },
            },
    {
        self.downloaded = self.downloaded + bytes;
        proof {
            if self.total > 0 {
                lemma_percent_monotone(
                    old(self).downloaded as int,
                    self.downloaded as int,
                    self.total as int,
                );
                lemma_percent_bounds(self.downloaded as int, self.total as int);
                if self.downloaded == self.total {
                    lemma_percent_complete(self.total as int);
                }
            }
        }
        if self.total > 0 && (now_ms - self.last_emit_ms >= 200 || self.downloaded == self.total) {
            let percent = compute_percent(self.downloaded, self.total);
            let elapsed_ms = now_ms - self.started_ms;
            let eta = compute_eta(self.downloaded, self.total, elapsed_ms);
            self.last_emit_ms = now_ms;
            self.last_percent = percent;
            Some((percent, eta))
        } else {
            None
        }
    }
}

/// The consumer side of the progress callback: reports are forwarded only
/// when the integer percent changes, bounding update volume on fast links.
pub struct ProgressNotifier {
    /// The last percent forwarded, if any was.
    pub last_percent: Option<u8>,
}

impl ProgressNotifier {
    /// A fresh notifier that will forward the first report it sees.
    pub fn new() -> (r: ProgressNotifier)
        ensures
            r.last_percent is None,
    {
        ProgressNotifier { last_percent: None }
    }

    /// Whether a report with this percent is forwarded: yes unless the
    /// previous forwarded report already said the same percent.
    pub fn on_progress(&mut self, percent: u8) -> (emit: bool)
        ensures
            final(self).last_percent == Some(percent),
            emit == (old(self).last_percent != Some(percent)),
    {
        let emit = match self.last_percent {
            Some(p) => p != percent,
            None => true,
        };
        self.last_percent = Some(percent);
        emit
    }
}

} // verus!
