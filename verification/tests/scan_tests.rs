use doay_core::scan_ports::{
    read_open_log, read_refused_log, read_tail, read_timeout_log, scan_summary, start_scan_ports,
    AsyncThreadLimiter, PortOutcome, ScanJob,
};

#[test]
fn unresolvable_host_rejects_the_scan() {
    let r = start_scan_ports("no.such.host.invalid", false, 1, 10, 4, 200);
    assert_eq!(r.err().unwrap(), "Failed to resolve hostname: no.such.host.invalid");
}

#[test]
fn fresh_job_is_empty() {
    let job = start_scan_ports("127.0.0.1", true, 65530, 65535, 4, 200).ok().unwrap();
    assert_eq!(job.open_count, 0);
    assert_eq!(job.refused_count, 0);
    assert_eq!(job.timeout_count, 0);
    assert_eq!(job.open_log, "");
    assert_eq!(job.refused_log, "");
    assert_eq!(job.timeout_log, "");
}

#[test]
fn closed_range_scan_counts_sum_to_range_size() {
    // scanning 127.0.0.1 ports 65530..=65535 with nothing listening: every
    // port resolves and is refused or times out, none opens
    let mut job = start_scan_ports("127.0.0.1", true, 65530, 65535, 4, 200).ok().unwrap();
    let mut port = 65530u16;
    loop {
        job.record_outcome(port, PortOutcome::Refused);
        if port == 65535 {
            break;
        }
        port += 1;
    }
    let s = scan_summary(&job);
    assert!(s.ok);
    assert_eq!(s.open_count, 0);
    assert_eq!(s.refused_count + s.timeout_count, 6);
}

#[test]
fn each_outcome_updates_its_own_counter_and_log() {
    let mut job = ScanJob::new("127.0.0.1".to_string(), 80, 90, 2, 100);
    job.record_outcome(80, PortOutcome::Open);
    job.record_outcome(81, PortOutcome::Refused);
    job.record_outcome(82, PortOutcome::TimedOut);
    job.record_outcome(83, PortOutcome::Skipped);
    job.record_outcome(90, PortOutcome::Open);
    assert_eq!(job.open_count, 2);
    assert_eq!(job.refused_count, 1);
    assert_eq!(job.timeout_count, 1);
    assert_eq!(job.skipped_count, 1);
    assert_eq!(job.open_log, "80\n90\n");
    assert_eq!(job.refused_log, "81\n");
    assert_eq!(job.timeout_log, "82\n");
    let s = scan_summary(&job);
    assert_eq!(s.open_count, 2);
    // a skipped port is counted in no outcome
    assert_eq!(s.open_count + s.refused_count + s.timeout_count, 4);
}

#[test]
fn limiter_admits_up_to_its_bound() {
    let mut l = AsyncThreadLimiter::new(2);
    assert!(l.available());
    l.acquire();
    assert!(l.available());
    l.acquire();
    assert!(!l.available());
    l.release();
    assert!(l.available());
    l.acquire();
    l.release();
    l.release();
    assert_eq!(l.permits, 2);
}

#[test]
fn tail_read_drops_partial_first_line() {
    // the read started mid-file, likely inside a line
    let raw = "530\n65531\n65532\n";
    assert_eq!(read_tail(raw, true), "65531\n65532\n");
    assert_eq!(read_refused_log(raw, true), "65531\n65532\n");
    assert_eq!(read_timeout_log(raw, true), "65531\n65532\n");
}

#[test]
fn tail_read_of_small_file_returns_everything() {
    let raw = "65530\n65531\n";
    assert_eq!(read_tail(raw, false), raw);
    assert_eq!(read_refused_log(raw, false), raw);
}

#[test]
fn tail_read_without_newline_returns_content() {
    // a truncated read of a file with one huge line: nothing to anchor on
    assert_eq!(read_tail("abcdef", true), "abcdef");
}

#[test]
fn open_log_reads_back_whole() {
    assert_eq!(read_open_log("80\n443\n"), "80\n443\n");
}
