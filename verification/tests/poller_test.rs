use spdk_io::poller::{should_yield, yield_now, PollBudget};

#[test]
fn test_yield_now() {
    let mut fut = yield_now();

    // First poll returns Pending
    assert!(!fut.poll_once());

    // Second poll returns Ready
    assert!(fut.poll_once());
}

#[test]
fn yield_now_stays_ready_after_second_poll() {
    let mut fut = yield_now();
    assert!(!fut.poll_once());
    for _ in 0..5 {
        assert!(fut.poll_once());
    }
}

#[test]
fn limited_budget_grants_exactly_max_iters() {
    let mut b = PollBudget::new(3);
    let mut granted = 0;
    for _ in 0..10 {
        if b.take_poll() {
            granted += 1;
        }
    }
    assert_eq!(granted, 3);
    assert!(!b.take_poll());
}

#[test]
fn zero_budget_is_unlimited() {
    let mut b = PollBudget::new(0);
    for _ in 0..1000 {
        assert!(b.take_poll());
    }
}

#[test]
fn poller_yields_only_when_idle() {
    assert!(should_yield(0));
    assert!(!should_yield(1));
    assert!(!should_yield(17));
    assert!(!should_yield(-1));
}
