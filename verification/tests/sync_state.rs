use avtime::ntp::{Measurement, NtpSync, SyncError, STALE_SENTINEL_SECS};

#[test]
fn new_state_is_never_synced() {
    let s = NtpSync::new(String::from("time.example.net"));
    assert_eq!(s.offset_ms, 0);
    assert_eq!(s.last_sync, 0);
    assert_eq!(s.server, "time.example.net");
}

#[test]
fn successful_refresh_updates_pair_together() {
    let mut s = NtpSync::new(String::from("time.example.net"));
    let m = Measurement {
        offset_ms: -42,
        measured_at: 1_700_000_000_000,
    };
    let r = s.apply_sync_result(Ok(m));
    assert!(r.is_ok());
    assert_eq!(s.offset_ms, -42);
    assert_eq!(s.last_sync, 1_700_000_000_000);
    assert_eq!(s.server, "time.example.net");
}

#[test]
fn failed_refresh_leaves_state_unchanged() {
    let mut s = NtpSync::new(String::from("time.example.net"));
    let m = Measurement {
        offset_ms: 7,
        measured_at: 1_700_000_000_000,
    };
    s.apply_sync_result(Ok(m)).unwrap();

    for e in [SyncError::Resolution, SyncError::Protocol, SyncError::Timeout] {
        let r = s.apply_sync_result(Err(e));
        assert_eq!(r, Err(e));
        assert_eq!(s.offset_ms, 7);
        assert_eq!(s.last_sync, 1_700_000_000_000);
        assert_eq!(s.server, "time.example.net");
    }
}

#[test]
fn never_synced_age_saturates() {
    let s = NtpSync::new(String::from("time.example.net"));
    assert_eq!(s.seconds_since_sync_at(1_700_000_000_000), STALE_SENTINEL_SECS);
    assert_eq!(s.seconds_since_sync_at(0), 9999);
    assert_eq!(s.seconds_since_sync_at(i64::MAX), 9999);
}

#[test]
fn clock_running_backwards_reads_as_sentinel() {
    let mut s = NtpSync::new(String::from("time.example.net"));
    s.apply_sync_result(Ok(Measurement {
        offset_ms: 0,
        measured_at: 50_000,
    }))
    .unwrap();
    assert_eq!(s.seconds_since_sync_at(49_999), 9999);
}

#[test]
fn age_is_whole_elapsed_seconds() {
    let mut s = NtpSync::new(String::from("time.example.net"));
    s.apply_sync_result(Ok(Measurement {
        offset_ms: 0,
        measured_at: 10_000,
    }))
    .unwrap();
    assert_eq!(s.seconds_since_sync_at(10_000), 0);
    assert_eq!(s.seconds_since_sync_at(10_999), 0);
    assert_eq!(s.seconds_since_sync_at(11_000), 1);
    // A synced state reports its true age, however large: after hours of
    // failed refreshes the label keeps counting rather than pinning at the
    // never-synced sentinel.
    assert_eq!(s.seconds_since_sync_at(10_000 + 9_999_000), 9_999);
    assert_eq!(s.seconds_since_sync_at(10_000 + 10_000_000), 10_000);
    assert_eq!(
        s.seconds_since_sync_at(i64::MAX),
        ((i64::MAX - 10_000) / 1000) as u64
    );
}

#[test]
fn adjusted_time_applies_offset() {
    let mut s = NtpSync::new(String::from("time.example.net"));
    s.apply_sync_result(Ok(Measurement {
        offset_ms: 37,
        measured_at: 1_000,
    }))
    .unwrap();
    assert_eq!(s.adjusted_time_at(2_000), 2_037);

    s.apply_sync_result(Ok(Measurement {
        offset_ms: -37,
        measured_at: 1_000,
    }))
    .unwrap();
    assert_eq!(s.adjusted_time_at(2_000), 1_963);
}

#[test]
fn adjusted_time_saturates_at_range_ends() {
    let mut s = NtpSync::new(String::from("time.example.net"));
    s.apply_sync_result(Ok(Measurement {
        offset_ms: 10,
        measured_at: 0,
    }))
    .unwrap();
    assert_eq!(s.adjusted_time_at(i64::MAX), i64::MAX);
    s.apply_sync_result(Ok(Measurement {
        offset_ms: -10,
        measured_at: 0,
    }))
    .unwrap();
    assert_eq!(s.adjusted_time_at(i64::MIN + 5), i64::MIN);
}

#[test]
fn reads_advance_with_the_clock_alone() {
    let mut s = NtpSync::new(String::from("time.example.net"));
    s.apply_sync_result(Ok(Measurement {
        offset_ms: 37,
        measured_at: 1_000,
    }))
    .unwrap();
    let t1 = s.adjusted_time_at(5_000);
    let t2 = s.adjusted_time_at(5_250);
    assert_eq!(t2 - t1, 250);
}

#[test]
fn snapshot_reads_one_instant() {
    let mut s = NtpSync::new(String::from("time.example.net"));
    s.apply_sync_result(Ok(Measurement {
        offset_ms: -8,
        measured_at: 60_000,
    }))
    .unwrap();
    let snap = s.snapshot_at(75_000);
    assert_eq!(snap.adjusted_ms, 74_992);
    assert_eq!(snap.offset_ms, -8);
    assert_eq!(snap.seconds_since_sync, 15);
    assert_eq!(snap.server, "time.example.net");
}
