//! Concurrent TCP port scanner state: one scan job over an inclusive port
//! range with bounded concurrency, partitioning every scanned port into
//! exactly one of three outcomes (open / refused / timed out) or skipping it
//! when its per-port address resolution failed.
//!
//! The embedding program schedules the connection attempts on its own
//! runtime, bounded by the admission limiter, and reports each port's outcome
//! exactly once; the job records counters and the three append-only log
//! streams, whose contents the embedding program mirrors to the log files.
//! The log files are truncated when a scan starts, so a scan never mixes with
//! a previous scan's content; log order reflects completion order, not port
//! order.

use vstd::prelude::*;

use vstd::set_lib::{lemma_int_range, lemma_len_subset, set_int_range};

use crate::strutil::{dec_seq, find_char_from, u16_to_string};

verus! {

/// Counting admission gate bounding simultaneous in-flight connection
/// attempts. A unit acquires one permit before connecting and releases it
/// unconditionally afterwards; a unit that finds no free permit waits (in the
/// embedding program's runtime) and never aborts.
pub struct AsyncThreadLimiter {
    pub permits: usize,
    pub limit: usize,
}

impl AsyncThreadLimiter {
    /// Free permits never exceed the configured bound.
    pub open spec fn wf(self) -> bool {
        self.permits <= self.limit
    }

    /// A limiter with `limit` free permits.
    pub fn new(limit: usize) -> (r: AsyncThreadLimiter)
        ensures
            r.permits == limit,
            r.limit == limit,
            r.wf(),
    {
        AsyncThreadLimiter { permits: limit, limit }
    }

    /// Whether a permit is free right now.
    pub fn available(&self) -> (r: bool)
        ensures
            r == (self.permits > 0),
    {
        self.permits > 0
    }

    /// Take one permit. The caller waits until one is free.
    pub fn acquire(&mut self)
        requires
            old(self).permits > 0,
        ensures
            final(self).permits == old(self).permits - 1,
            final(self).limit == old(self).limit,
    {
        self.permits = self.permits - 1;
    }

    /// Return one permit. A unit releases only what it acquired, so the
    /// bound is never exceeded.
    pub fn release(&mut self)
        requires
            old(self).permits < old(self).limit,
        ensures
            final(self).permits == old(self).permits + 1,
            final(self).limit == old(self).limit,
            final(self).wf(),
    {
        self.permits = self.permits + 1;
    }
}

/// Outcome of one port's connection attempt: connected within the deadline,
/// refused within the deadline, deadline elapsed first, or skipped because
/// the port's own address resolution failed (no log entry, no counter).
#[derive(Clone, Copy, PartialEq, Eq, Structural)]
pub enum PortOutcome {
    Open,
    Refused,
    TimedOut,
    Skipped,
}

/// The ports of the inclusive range, as a set of integers.
pub open spec fn scan_range(start_port: u16, end_port: u16) -> Set<int> {
    set_int_range(start_port as int, end_port as int + 1)
}

/// Number of ports in the inclusive range (zero when it is empty).
pub open spec fn total_ports(start_port: u16, end_port: u16) -> int {
    if start_port <= end_port {
        end_port - start_port + 1
    } else {
        0
    }
}

pub proof fn lemma_scan_range_len(start_port: u16, end_port: u16)
    ensures
        scan_range(start_port, end_port).finite(),
        scan_range(start_port, end_port).len() == total_ports(start_port, end_port),
{
    if start_port <= end_port {
        lemma_int_range(start_port as int, end_port as int + 1);
    } else {
        assert(scan_range(start_port, end_port) =~= Set::empty());
    }
}

/// A line of a scan log: the port in decimal, then a newline.
pub open spec fn port_line(port: u16) -> Seq<char> {
    dec_seq(port as int) + "\n"@
}

/// One port-range scan invocation: target, range, limits, the triple counter
/// plus the count of skipped ports, and the three log streams. Each port of
/// the range is recorded at most once, which the ghost set of recorded ports
/// pins down.
pub struct ScanJob {
    pub host: String,
    pub start_port: u16,
    pub end_port: u16,
    pub max_threads: usize,
    pub timeout_ms: u64,
    pub open_count: usize,
    pub refused_count: usize,
    pub timeout_count: usize,
    pub skipped_count: usize,
    pub open_log: String,
    pub refused_log: String,
    pub timeout_log: String,
    pub recorded: Ghost<Set<int>>,
}

impl ScanJob {
    /// Every recorded port lies in the range, each was recorded exactly once,
    /// and the counters account exactly for the recorded ports.
    pub open spec fn wf(self) -> bool {
        &&& self.recorded@.finite()
        &&& self.recorded@.subset_of(scan_range(self.start_port, self.end_port))
        &&& self.open_count + self.refused_count + self.timeout_count + self.skipped_count
            == self.recorded@.len()
    }

    /// A fresh job: nothing recorded, counters zero, log streams empty (the
    /// embedding program truncates the log files to match).
    pub fn new(host: String, start_port: u16, end_port: u16, max_threads: usize, timeout_ms: u64) -> (r:
        ScanJob)
        ensures
            r.host == host,
            r.start_port == start_port,
            r.end_port == end_port,
            r.max_threads == max_threads,
            r.timeout_ms == timeout_ms,
            r.open_count == 0,
            r.refused_count == 0,
            r.timeout_count == 0,
            r.skipped_count == 0,
            r.open_log@ == Seq::<char>::empty(),
            r.refused_log@ == Seq::<char>::empty(),
            r.timeout_log@ == Seq::<char>::empty(),
            r.recorded@ == Set::<int>::empty(),
            r.wf(),
    {
        let r = ScanJob {
            host,
            start_port,
            end_port,
            max_threads,
            timeout_ms,
            open_count: 0,
            refused_count: 0,
            timeout_count: 0,
            skipped_count: 0,
            open_log: String::new(),
            refused_log: String::new(),
            timeout_log: String::new(),
            recorded: Ghost(Set::empty()),
        };
        r
    }

    /// The given port lies in the job's range.
    pub open spec fn port_in_range(self, port: u16) -> bool {
        self.start_port <= port && port <= self.end_port
    }

    /// Record the outcome of one port, exactly once per port: exactly one of
    /// the three outcome logs and counters changes (or only the skip counter,
    /// when resolution failed), and everything else is untouched.
    pub fn record_outcome(&mut self, port: u16, outcome: PortOutcome)
        requires
            old(self).wf(),
            old(self).port_in_range(port),
            !old(self).recorded@.contains(port as int),
        ensures
            final(self).wf(),
            final(self).recorded@ == old(self).recorded@.insert(port as int),
            final(self).host == old(self).host,
            final(self).start_port == old(self).start_port,
            final(self).end_port == old(self).end_port,
            final(self).max_threads == old(self).max_threads,
            final(self).timeout_ms == old(self).timeout_ms,
            match outcome {
                PortOutcome::Open => {
                    &&& final(self).open_count == old(self).open_count + 1
                    &&& final(self).open_log@ == old(self).open_log@ + port_line(port)
                    &&& final(self).refused_count == old(self).refused_count
                    &&& final(self).timeout_count == old(self).timeout_count
                    &&& final(self).skipped_count == old(self).skipped_count
                    &&& final(self).refused_log@ == old(self).refused_log@
                    &&& final(self).timeout_log@ == old(self).timeout_log@
                },
                PortOutcome::Refused => {
                    &&& final(self).refused_count == old(self).refused_count + 1
                    &&& final(self).refused_log@ == old(self).refused_log@ + port_line(port)
                    &&& final(self).open_count == old(self).open_count
                    &&& final(self).timeout_count == old(self).timeout_count
                    &&& final(self).skipped_count == old(self).skipped_count
                    &&& final(self).open_log@ == old(self).open_log@
                    &&& final(self).timeout_log@ == old(self).timeout_log@
                },
                PortOutcome::TimedOut => {
                    &&& final(self).timeout_count == old(self).timeout_count + 1
                    &&& final(self).timeout_log@ == old(self).timeout_log@ + port_line(port)
                    &&& final(self).open_count == old(self).open_count
                    &&& final(self).refused_count == old(self).refused_count
                    &&& final(self).skipped_count == old(self).skipped_count
                    &&& final(self).open_log@ == old(self).open_log@
                    &&& final(self).refused_log@ == old(self).refused_log@
                },
                PortOutcome::Skipped => {
                    &&& final(self).skipped_count == old(self).skipped_count + 1
                    &&& final(self).open_count == old(self).open_count
                    &&& final(self).refused_count == old(self).refused_count
                    &&& final(self).timeout_count == old(self).timeout_count
                    &&& final(self).open_log@ == old(self).open_log@
                    &&& final(self).refused_log@ == old(self).refused_log@
                    &&& final(self).timeout_log@ == old(self).timeout_log@
                },
            },
    {
        proof {
            lemma_scan_range_len(self.start_port, self.end_port);
            lemma_len_subset(self.recorded@, scan_range(self.start_port, self.end_port));
            assert(self.recorded@.insert(port as int).len() == self.recorded@.len() + 1);
            lemma_len_subset(
                self.recorded@.insert(port as int),
                scan_range(self.start_port, self.end_port),
            );
        }
        self.recorded = Ghost(self.recorded@.insert(port as int));
        match outcome {
            PortOutcome::Open => {
                self.open_count = self.open_count + 1;
                let mut line = u16_to_string(port);
                line.append("\n");
                self.open_log.append(line.as_str());
            },
            PortOutcome::Refused => {
                self.refused_count = self.refused_count + 1;
                let mut line = u16_to_string(port);
                line.append("\n");
                self.refused_log.append(line.as_str());
            },
            PortOutcome::TimedOut => {
                self.timeout_count = self.timeout_count + 1;
                let mut line = u16_to_string(port);
                line.append("\n");
                self.timeout_log.append(line.as_str());
            },
            PortOutcome::Skipped => {
                self.skipped_count = self.skipped_count + 1;
            },
        }
    }
}

/// Aggregate scan statistics handed back to the caller. The elapsed
/// wall-clock time is measured by the embedding program around the whole
/// scan.
pub struct ScanSummary {
    pub ok: bool,
    pub open_count: usize,
    pub refused_count: usize,
    pub timeout_count: usize,
}

/// The counters of a finished scan.
pub fn scan_summary(job: &ScanJob) -> (r: ScanSummary)
    ensures
        r.ok == true,
        r.open_count == job.open_count,
        r.refused_count == job.refused_count,
        r.timeout_count == job.timeout_count,
{
    ScanSummary {
        ok: true,
        open_count: job.open_count,
        refused_count: job.refused_count,
        timeout_count: job.timeout_count,
    }
}

/// Begin a scan: the target host is resolved once up front by the embedding
/// program, and a failed resolution rejects the whole scan with a
/// descriptive error before any per-port work; otherwise a fresh job over
/// the requested range is returned.
pub fn start_scan_ports(
    host: &str,
    host_resolved: bool,
    start_port: u16,
    end_port: u16,
    max_threads: usize,
    timeout_ms: u64,
) -> (r: Result<ScanJob, String>)
    ensures
        host_resolved <==> r is Ok,
        r is Ok ==> {
            let job = r->Ok_0;
            &&& job.host@ == host@
            &&& job.start_port == start_port
            &&& job.end_port == end_port
            &&& job.max_threads == max_threads
            &&& job.timeout_ms == timeout_ms
            &&& job.open_count == 0
            &&& job.refused_count == 0
            &&& job.timeout_count == 0
            &&& job.skipped_count == 0
            &&& job.open_log@ == Seq::<char>::empty()
            &&& job.refused_log@ == Seq::<char>::empty()
            &&& job.timeout_log@ == Seq::<char>::empty()
            &&& job.recorded@ == Set::<int>::empty()
            &&& job.wf()
        },
        r is Err ==> r->Err_0@ == "Failed to resolve hostname: "@ + host@,
{
    if !host_resolved {
        let mut msg = "Failed to resolve hostname: ".to_owned();
        msg.append(host);
        return Err(msg);
    }
    Ok(ScanJob::new(host.to_owned(), start_port, end_port, max_threads, timeout_ms))
}

/// In every scan, at most one outcome is counted per port of the range, so
/// the three counters together never exceed the range's size.
pub proof fn lemma_scan_counts_bounded(job: ScanJob)
    requires
        job.wf(),
    ensures
        job.open_count + job.refused_count + job.timeout_count <= total_ports(
            job.start_port,
            job.end_port,
        ),
{
    lemma_scan_range_len(job.start_port, job.end_port);
    lemma_len_subset(job.recorded@, scan_range(job.start_port, job.end_port));
}

/// When every port of the range was recorded and none was skipped (no
/// per-port resolution failure), the three counters sum exactly to the
/// range's size.
pub proof fn lemma_scan_counts_complete(job: ScanJob)
    requires
        job.wf(),
        job.recorded@ == scan_range(job.start_port, job.end_port),
        job.skipped_count == 0,
    ensures
        job.open_count + job.refused_count + job.timeout_count == total_ports(
            job.start_port,
            job.end_port,
        ),
{
    lemma_scan_range_len(job.start_port, job.end_port);
}

/// The tail `read_tail` keeps of a truncated read: everything after the
/// first newline, or the whole content when it holds none.
pub open spec fn after_first_line(s: Seq<char>) -> Seq<char> {
    let i = find_char_from(s, '\n', 0);
    if i < s.len() {
        s.skip(i + 1)
    } else {
        s
    }
}

/// Bounded read-back of a large log. `raw` is what the embedding program
/// read from the chosen start offset; `truncated` reports whether the file
/// was larger than the read bound (the read started mid-file). A truncated
/// read discards the possibly partial first line.
pub fn read_tail(raw: &str, truncated: bool) -> (r: String)
    ensures
        !truncated ==> r@ == raw@,
        truncated ==> r@ == after_first_line(raw@),
{
    if !truncated {
        return raw.to_owned();
    }
    proof {
        crate::strutil::lemma_find_char_from(raw@, '\n', 0);
    }
    match crate::strutil::find_char(raw, '\n') {
        Some(i) => {
            let len = raw.unicode_len();
            let r = raw.substring_char(i + 1, len).to_owned();
            proof {
                assert(r@ =~= after_first_line(raw@));
            }
            r
        },
        None => raw.to_owned(),
    }
}

/// Full read-back of the open-ports log (expected to be small).
pub fn read_open_log(content: &str) -> (r: String)
    ensures
        r@ == content@,
{
    content.to_owned()
}

/// Tail-bounded read-back of the timed-out-ports log.
pub fn read_timeout_log(raw: &str, truncated: bool) -> (r: String)
    ensures
        !truncated ==> r@ == raw@,
        truncated ==> r@ == after_first_line(raw@),
{
    read_tail(raw, truncated)
}

/// Tail-bounded read-back of the refused-ports log.
pub fn read_refused_log(raw: &str, truncated: bool) -> (r: String)
    ensures
        !truncated ==> r@ == raw@,
        truncated ==> r@ == after_first_line(raw@),
{
    read_tail(raw, truncated)
}

/// A truncated read never yields a partial first line: either the content
/// had no newline at all and is returned whole, or the result is exactly
/// what follows the first newline, a line boundary.
pub proof fn lemma_tail_starts_at_line_boundary(s: Seq<char>)
    ensures
        (after_first_line(s) == s && (forall|j: int| 0 <= j < s.len() ==> s[j] != '\n')) || (
        exists|i: int|
            {
                &&& 0 <= i < s.len()
                &&& s[i] == '\n'
                &&& forall|j: int| 0 <= j < i ==> s[j] != '\n'
                &&& after_first_line(s) == s.skip(i + 1)
            }),
{
    crate::strutil::lemma_find_char_from(s, '\n', 0);
    let i = find_char_from(s, '\n', 0);
    if i < s.len() {
        assert({
            &&& 0 <= i < s.len()
            &&& s[i] == '\n'
            &&& forall|j: int| 0 <= j < i ==> s[j] != '\n'
            &&& after_first_line(s) == s.skip(i + 1)
        });
    }
}

} // verus!
