use fence::Fence;
use std::time::Duration;

const MS: u128 = 1_000_000;

#[test]
fn first_probe_waits_one_interval() {
    let mut f = Fence::from_millis(50);
    assert!(!f.allow_at(10 * MS));
    assert!(f.allow_at(60 * MS));
}

#[test]
fn first_probe_is_denied_until_the_exact_instant() {
    let mut f = Fence::from_millis(50);
    assert!(!f.allow_at(0));
    assert!(!f.allow_at(50 * MS - 1));
    assert_eq!(f.watermark_nanos(), 50 * MS);
    assert!(f.allow_at(50 * MS));
    assert_eq!(f.watermark_nanos(), 100 * MS);
}

#[test]
fn granted_probe_rearms_from_its_own_instant() {
    let mut f = Fence::from_millis(50);
    assert!(f.allow_at(60 * MS));
    assert_eq!(f.watermark_nanos(), 110 * MS);
    assert!(!f.allow_at(60 * MS));
    assert!(!f.allow_at(100 * MS));
    assert!(!f.allow_at(110 * MS - 1));
    assert!(f.allow_at(110 * MS));
    assert_eq!(f.watermark_nanos(), 160 * MS);
    assert!(f.allow_at(500 * MS));
    assert_eq!(f.watermark_nanos(), 550 * MS);
}

#[test]
fn gate_never_stays_open_after_a_grant() {
    let mut f = Fence::from_millis(1);
    assert!(f.allow_at(7 * MS));
    assert!(!f.allow_at(7 * MS));
    assert!(!f.allow_at(8 * MS - 1));
    assert!(f.allow_at(8 * MS));
}

#[test]
fn denied_probes_leave_the_watermark_alone() {
    let mut f = Fence::from_millis(20);
    let interval: u128 = f.interval_nanos();
    for _ in 0..1_000 {
        assert!(!f.allow_at(19 * MS));
        assert_eq!(f.watermark_nanos(), 20 * MS);
        assert_eq!(f.interval_nanos(), interval);
    }
    assert!(f.allow_at(20 * MS));
}

#[test]
fn polling_every_millisecond_opens_once() {
    let mut f = Fence::from_millis(20);
    let mut granted: Vec<u128> = Vec::new();
    for tick in 1..=30u128 {
        if f.allow_at(tick * MS) {
            granted.push(tick);
        }
    }
    assert_eq!(granted, vec![20u128]);
    assert_eq!(f.watermark_nanos(), 40 * MS);
}

#[test]
fn polling_keeps_opening_once_per_interval() {
    let mut f = Fence::from_millis(20);
    let mut granted: Vec<u128> = Vec::new();
    for tick in 1..=100u128 {
        if f.allow_at(tick * MS) {
            granted.push(tick);
        }
    }
    assert_eq!(granted, vec![20u128, 40, 60, 80, 100]);
}

#[test]
fn coarse_polling_drifts_but_never_opens_early() {
    let mut f = Fence::from_millis(20);
    let mut granted: Vec<u128> = Vec::new();
    for step in 1..=20u128 {
        let tick: u128 = step * 7;
        if f.allow_at(tick * MS) {
            granted.push(tick);
        }
    }
    assert_eq!(granted, vec![21u128, 42, 63, 84, 105, 126]);
    for pair in granted.windows(2) {
        assert!(pair[1] - pair[0] >= 20);
    }
}

#[test]
fn pending_is_the_gap_to_the_watermark() {
    let f = Fence::from_millis(10);
    assert_eq!(f.pending_at(0), 10 * MS);
    assert_eq!(f.pending_at(4 * MS), 6 * MS);
    assert_eq!(f.pending_at(10 * MS - 1), 1u128);
    assert_eq!(f.pending_at(10 * MS), 0u128);
    assert_eq!(f.pending_at(25 * MS), 0u128);
    assert_eq!(f.pending_at(u128::MAX), 0u128);
    assert_eq!(f.watermark_nanos(), 10 * MS);
}

#[test]
fn rearm_counts_from_the_given_instant() {
    let mut f = Fence::from_millis(10);
    f.rearm_at(3 * MS);
    assert_eq!(f.watermark_nanos(), 13 * MS);
    assert_eq!(f.interval_nanos(), 10 * MS);
    f.rearm_at(100 * MS);
    assert_eq!(f.watermark_nanos(), 110 * MS);
    f.rearm_at(0);
    assert_eq!(f.watermark_nanos(), 10 * MS);
}

#[test]
fn one_blocking_pass_takes_one_interval() {
    let mut f = Fence::from_duration(Duration::from_millis(10));
    let entered: u128 = 0;
    let wait: u128 = f.pending_at(entered);
    assert_eq!(wait, 10 * MS);
    let resumed: u128 = entered + wait;
    f.rearm_at(resumed);
    assert!(resumed >= 10 * MS);
    assert_eq!(f.watermark_nanos(), 20 * MS);
}

#[test]
fn ten_blocking_passes_take_ten_intervals() {
    let mut f = Fence::from_duration(Duration::from_millis(5));
    let mut clock: u128 = 0;
    for _ in 0..10 {
        let wait: u128 = f.pending_at(clock);
        assert_eq!(wait, 5 * MS);
        clock += wait;
        f.rearm_at(clock);
    }
    assert_eq!(clock, 50 * MS);
    assert_eq!(f.watermark_nanos(), 55 * MS);
}

#[test]
fn blocking_passes_absorb_short_work_and_late_wakeups() {
    let mut f = Fence::from_millis(5);
    let mut clock: u128 = 0;
    let mut resumes: Vec<u128> = Vec::new();
    for round in 0..10u128 {
        clock += (round % 3) * MS;
        let wait: u128 = f.pending_at(clock);
        clock += wait + 100_000;
        f.rearm_at(clock);
        resumes.push(clock);
    }
    assert!(clock >= 50 * MS);
    assert!(resumes[0] >= 5 * MS);
    for pair in resumes.windows(2) {
        assert!(pair[1] - pair[0] >= 5 * MS);
    }
}

#[test]
fn late_caller_passes_at_once_and_rearms_from_now() {
    let mut f = Fence::from_millis(10);
    let wait: u128 = f.pending_at(0);
    f.rearm_at(wait);
    assert_eq!(f.watermark_nanos(), 20 * MS);

    let late: u128 = 75 * MS;
    assert_eq!(f.pending_at(late), 0u128);
    f.rearm_at(late);
    assert_eq!(f.watermark_nanos(), 85 * MS);
    assert_eq!(f.pending_at(76 * MS), 9 * MS);
}

#[test]
fn late_probe_does_not_catch_up() {
    let mut f = Fence::from_millis(10);
    assert!(f.allow_at(75 * MS));
    assert!(!f.allow_at(75 * MS + 1));
    assert!(!f.allow_at(84 * MS));
    assert!(f.allow_at(85 * MS));
}
