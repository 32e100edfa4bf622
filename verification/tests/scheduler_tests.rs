use wallet_linker::config::Config;
use wallet_linker::scheduler::{assign_proxy_index, rotate_proxy_index, RetryPolicy, RunLedger};

#[test]
fn round_robin_proxy_assignment() {
    // Execution at index i always uses proxy i mod pool size.
    for i in 0..10usize {
        assert_eq!(assign_proxy_index(i, 3), i % 3);
    }
    assert_eq!(assign_proxy_index(7, 1), 0);
}

#[test]
fn proxy_rotation_visits_each_once_then_gives_up() {
    assert_eq!(rotate_proxy_index(1, 0, 3), Some(1));
    assert_eq!(rotate_proxy_index(1, 1, 3), Some(2));
    assert_eq!(rotate_proxy_index(1, 2, 3), Some(0));
    assert_eq!(rotate_proxy_index(1, 3, 3), None);
}

#[test]
fn retry_policy_doubles_then_gives_up() {
    let p = RetryPolicy { max_attempts: 3, base_delay_ms: 5000 };
    assert_eq!(p.delay_for_attempt(0), Some(5000));
    assert_eq!(p.delay_for_attempt(1), Some(10000));
    assert_eq!(p.delay_for_attempt(2), Some(20000));
    assert_eq!(p.delay_for_attempt(3), None);
    assert_eq!(p.delay_for_attempt(100), None);
}

#[test]
fn retry_policy_saturates() {
    let p = RetryPolicy { max_attempts: 10, base_delay_ms: u64::MAX / 2 + 1 };
    assert_eq!(p.delay_for_attempt(1), Some(u64::MAX));
    assert_eq!(p.delay_for_attempt(5), Some(u64::MAX));
}

#[test]
fn ledger_enforces_the_concurrency_bound() {
    let mut l = RunLedger::new(2, 3);
    assert!(l.can_start());
    let i0 = l.start_next();
    assert_eq!(i0, 0);
    assert!(l.can_start());
    let i1 = l.start_next();
    assert_eq!(i1, 1);
    // Two in flight under parallelism two: nothing more may start.
    assert!(!l.can_start());
    l.complete_without_record();
    // A freed slot lets the remaining credential in.
    assert!(l.can_start());
    let i2 = l.start_next();
    assert_eq!(i2, 2);
    assert!(!l.can_start());
    l.complete_with_record("A: 1.5\n".to_string());
    l.complete_without_record();
    assert!(l.is_done());
    assert_eq!(l.record_count(), 1);
}

#[test]
fn ledger_keeps_every_recorded_line() {
    let mut l = RunLedger::new(1, 4);
    let mut expected = 0usize;
    for k in 0..4usize {
        l.start_next();
        if k % 2 == 0 {
            l.complete_with_record(format!("W{}\n", k));
            expected += 1;
        } else {
            // A failure, or a wallet that is not eligible, leaves no
            // record, and the run goes on.
            l.complete_without_record();
        }
        assert_eq!(l.record_count(), expected);
    }
    assert!(l.is_done());
    assert_eq!(l.record_count(), 2);
}

#[test]
fn config_batch_ranges_cover_the_list() {
    let c = Config::new(10, 4);
    assert_eq!(c.batch_range(0, 25), (0, 10));
    assert_eq!(c.batch_range(1, 25), (10, 20));
    assert_eq!(c.batch_range(2, 25), (20, 25));
}

#[test]
fn config_check_rejects_zero_knobs() {
    assert!(!Config::check(0, 4));
    assert!(!Config::check(4, 0));
    assert!(Config::check(1, 1));
}
