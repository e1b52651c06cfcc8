use presence_monitor::config::Config;
use presence_monitor::tracker::{
    check, expire_misses, process_missed_request, CycleEvent, KeyState, MissAction, ProbeOutcome,
};

fn conf() -> Config {
    Config {
        redis_url: String::from("redis://127.0.0.1/"),
        jake_key: String::from("jake_phone"),
        becca_key: String::from("becca_phone"),
        ping_cmd: String::from("ping"),
        ping_timeout: String::from("2"),
        poll_period: 5,
        max_misses: 2,
    }
}

fn with_address() -> KeyState {
    KeyState {
        address: Some(String::from("192.168.1.23")),
        misses: None,
    }
}

#[test]
fn three_misses_bump_then_fourth_cleans_up() {
    // max_misses = 2, poll_period = 5, probe timeout = 2: each bump sets an
    // 8 second time-to-live, and cleanup fires on the fourth failed cycle.
    let c = conf();
    let s0 = with_address();

    let (s1, e1) = check(s0, Some(ProbeOutcome::Unreachable), &c);
    assert_eq!(e1, CycleEvent::Bumped { value: 1, ttl: 8 });
    assert_eq!(s1.misses, Some(1));

    let (s2, e2) = check(s1, Some(ProbeOutcome::Unreachable), &c);
    assert_eq!(e2, CycleEvent::Bumped { value: 2, ttl: 8 });
    assert_eq!(s2.misses, Some(2));

    // Counter read as 2, which is not > 2: it still bumps, to 3.
    let (s3, e3) = check(s2, Some(ProbeOutcome::Unreachable), &c);
    assert_eq!(e3, CycleEvent::Bumped { value: 3, ttl: 8 });
    assert_eq!(s3.misses, Some(3));
    assert!(s3.address.is_some());

    // Counter read as 3, and 3 > 2: cleanup deletes both keys.
    let (s4, e4) = check(s3, Some(ProbeOutcome::Unreachable), &c);
    assert_eq!(e4, CycleEvent::CleanedUp);
    assert_eq!(s4.address, None);
    assert_eq!(s4.misses, None);
}

#[test]
fn absent_address_skips_probe_and_store() {
    let c = conf();
    let s0 = KeyState {
        address: None,
        misses: None,
    };
    let (s1, e1) = check(s0, None, &c);
    assert_eq!(e1, CycleEvent::Skipped);
    assert_eq!(s1.address, None);
    assert_eq!(s1.misses, None);
}

#[test]
fn absent_address_leaves_stale_counter_alone() {
    let c = conf();
    let s0 = KeyState {
        address: None,
        misses: Some(2),
    };
    let (s1, e1) = check(s0, None, &c);
    assert_eq!(e1, CycleEvent::Skipped);
    assert_eq!(s1.misses, Some(2));
}

#[test]
fn reachable_does_not_reset_counter() {
    // One miss, then a success: the counter keeps its value of 1 rather
    // than being deleted, and decays only through its own expiry.
    let c = conf();
    let s0 = with_address();
    let (s1, _) = check(s0, Some(ProbeOutcome::Unreachable), &c);
    assert_eq!(s1.misses, Some(1));

    let (s2, e2) = check(s1, Some(ProbeOutcome::Reachable), &c);
    assert_eq!(e2, CycleEvent::StillUp);
    assert_eq!(s2.misses, Some(1));
    assert_eq!(s2.address, Some(String::from("192.168.1.23")));
}

#[test]
fn expiry_restarts_count_at_one() {
    let c = conf();
    let s0 = with_address();
    let (s1, _) = check(s0, Some(ProbeOutcome::Unreachable), &c);
    let (s2, _) = check(s1, Some(ProbeOutcome::Unreachable), &c);
    assert_eq!(s2.misses, Some(2));

    // The store expires the counter key before the threshold is reached.
    let s3 = expire_misses(s2);
    assert_eq!(s3.misses, None);
    assert!(s3.address.is_some());

    // The next miss counts from 1 again, not from the pre-expiry 2.
    let (s4, e4) = check(s3, Some(ProbeOutcome::Unreachable), &c);
    assert_eq!(e4, CycleEvent::Bumped { value: 1, ttl: 8 });
    assert_eq!(s4.misses, Some(1));
}

#[test]
fn counter_never_exceeds_threshold_plus_one() {
    // Over a long all-unreachable run the stored value stays at most
    // max_misses + 1, and exactly one cleanup fires before the key rests.
    let c = conf();
    let mut s = with_address();
    let mut cleanups = 0;
    for _ in 0..10 {
        let probed = if s.address.is_some() {
            Some(ProbeOutcome::Unreachable)
        } else {
            None
        };
        let (next, e) = check(s, probed, &c);
        if let Some(n) = next.misses {
            assert!(n <= c.max_misses + 1);
        }
        if e == CycleEvent::CleanedUp {
            cleanups += 1;
        }
        s = next;
    }
    assert_eq!(cleanups, 1);
    assert_eq!(s.address, None);
    assert_eq!(s.misses, None);
}

#[test]
fn exactly_one_cleanup_after_sustained_absence() {
    // max_misses + 2 = 4 consecutive failed cycles: one cleanup, then both
    // store keys are gone.
    let c = conf();
    let mut s = with_address();
    let mut cleanups = 0;
    for _ in 0..4 {
        let (next, e) = check(s, Some(ProbeOutcome::Unreachable), &c);
        if e == CycleEvent::CleanedUp {
            cleanups += 1;
        }
        s = next;
        if s.address.is_none() {
            break;
        }
    }
    assert_eq!(cleanups, 1);
    assert_eq!(s.address, None);
    assert_eq!(s.misses, None);
}

#[test]
fn miss_decision_bumps_below_threshold() {
    let c = conf();
    assert_eq!(
        process_missed_request(0, &c),
        MissAction::Bump { value: 1, ttl: 8 }
    );
    assert_eq!(
        process_missed_request(2, &c),
        MissAction::Bump { value: 3, ttl: 8 }
    );
}

#[test]
fn miss_decision_cleans_up_past_threshold() {
    let c = conf();
    assert_eq!(process_missed_request(3, &c), MissAction::Cleanup);
    // A foreign writer may have stored anything; any value past the
    // threshold still cleans up rather than counting on.
    assert_eq!(process_missed_request(u64::MAX, &c), MissAction::Cleanup);
}

#[test]
fn resolve_reads_the_address_record() {
    let s = with_address();
    assert_eq!(s.resolve(), Some(String::from("192.168.1.23")));
    let empty = KeyState {
        address: None,
        misses: None,
    };
    assert_eq!(empty.resolve(), None);
}
