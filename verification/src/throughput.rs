use vstd::prelude::*;

verus! {

/// Microseconds the sampler waits between two throughput reports.
pub const REPORT_INTERVAL_MICROS: u64 = 1_000_000;

/// The inbound pipeline's byte counter: bytes seen since the last report,
/// plus the monotonic-clock instant of that report. It is owned by the
/// reading task alone and never shared.
///
/// A ghost total of all bytes already put into reports lets the accounting
/// be stated exactly: however record and report calls interleave, every
/// byte that was recorded is in exactly one report or still pending —
/// none dropped, none double-counted.
pub struct ThroughputSample {
    bytes: u64,
    last_report: u64,
    reported: Ghost<nat>,
}

impl ThroughputSample {
    /// Bytes recorded since the last report was taken.
    pub closed spec fn pending_bytes(self) -> nat {
        self.bytes as nat
    }

    /// The monotonic instant, in microseconds, of the last report (or of
    /// creation, before any report).
    pub closed spec fn last_report_micros(self) -> nat {
        self.last_report as nat
    }

    /// The sum of the byte counts of every report taken so far.
    pub closed spec fn reported_bytes(self) -> nat {
        self.reported@
    }

    /// Every byte ever recorded: the reports plus what is still pending.
    pub open spec fn recorded_bytes(self) -> nat {
        self.reported_bytes() + self.pending_bytes()
    }

    pub fn new(now_micros: u64) -> (s: ThroughputSample)
        ensures
            s.pending_bytes() == 0,
            s.reported_bytes() == 0,
            s.last_report_micros() == now_micros,
    {
        ThroughputSample { bytes: 0, last_report: now_micros, reported: Ghost(0) }
    }

    /// Bytes waiting for the next report, as a runtime value.
    pub fn pending(&self) -> (r: u64)
        ensures
            r == self.pending_bytes(),
    {
        self.bytes
    }

    /// The instant of the last report, as a runtime value.
    pub fn last_report(&self) -> (r: u64)
        ensures
            r == self.last_report_micros(),
    {
        self.last_report
    }

    /// Counts the bytes of one read. Nothing is reported here; the count
    /// only moves into a report through `take_report`.
    pub fn record(&mut self, n: usize)
        requires
            old(self).pending_bytes() + n <= u64::MAX,
        ensures
            final(self).pending_bytes() == old(self).pending_bytes() + n,
            final(self).reported_bytes() == old(self).reported_bytes(),
            final(self).last_report_micros() == old(self).last_report_micros(),
            final(self).recorded_bytes() == old(self).recorded_bytes() + n,
    {
        self.bytes = self.bytes + (n as u64);
    }

    /// Whether a full reporting interval has passed since the last report.
    pub fn report_due(&self, now_micros: u64) -> (due: bool)
        requires
            self.last_report_micros() <= now_micros,
        ensures
            due == (now_micros - self.last_report_micros() >= REPORT_INTERVAL_MICROS),
    {
        now_micros - self.last_report >= REPORT_INTERVAL_MICROS
    }

    /// Emits a report: hands back every pending byte, moves that count into
    /// the reported total, and restarts the interval at `now_micros`.
    /// The grand total of recorded bytes is unchanged — reporting neither
    /// drops nor double-counts.
    pub fn take_report(&mut self, now_micros: u64) -> (bytes: u64)
        ensures
            bytes == old(self).pending_bytes(),
            final(self).pending_bytes() == 0,
            final(self).reported_bytes() == old(self).reported_bytes() + bytes,
            final(self).last_report_micros() == now_micros,
            final(self).recorded_bytes() == old(self).recorded_bytes(),
    {
        let bytes = self.bytes;
        self.bytes = 0;
        self.last_report = now_micros;
        proof {
            self.reported@ = self.reported@ + bytes as nat;
        }
        bytes
    }
}

/// Conservation of the throughput count: at every moment the bytes a
/// sampler has ever recorded are exactly the bytes of its reports plus the
/// bytes still pending for the next report.
pub proof fn lemma_throughput_accounting(s: ThroughputSample)
    ensures
        s.recorded_bytes() == s.reported_bytes() + s.pending_bytes(),
{
}

} // verus!
