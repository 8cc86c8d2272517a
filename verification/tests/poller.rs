use machine_rs::poller::{Poller, Verdict};

#[test]
fn a_reached_condition_ends_the_wait() {
    let mut p = Poller::bounded(60, 30);
    assert_eq!(p.observe(true), Verdict::Reached);
    assert_eq!(p.elapsed_secs, 0);
}

#[test]
fn a_bounded_wait_times_out() {
    let mut p = Poller::bounded(60, 30);
    assert_eq!(p.observe(false), Verdict::Wait { secs: 30 });
    assert_eq!(p.elapsed_secs, 30);
    assert_eq!(p.observe(false), Verdict::Wait { secs: 30 });
    assert_eq!(p.elapsed_secs, 60);
    assert_eq!(p.observe(false), Verdict::TimedOut);
    assert_eq!(p.elapsed_secs, 60);
    assert_eq!(p.observe(true), Verdict::Reached);
}

#[test]
fn the_cadence_is_fixed() {
    let mut p = Poller::bounded(1000, 7);
    for _ in 0..100 {
        assert_eq!(p.observe(false), Verdict::Wait { secs: 7 });
    }
    assert_eq!(p.elapsed_secs, 700);
}

#[test]
fn discovery_checks_ten_times() {
    let mut p = Poller::bounded(270, 30);
    let mut checks = 0;
    loop {
        checks += 1;
        match p.observe(false) {
            Verdict::Wait { secs } => assert_eq!(secs, 30),
            Verdict::TimedOut => break,
            Verdict::Reached => panic!("the condition never held"),
        }
    }
    assert_eq!(checks, 10);
}

#[test]
fn an_unbounded_wait_never_times_out() {
    let mut p = Poller::unbounded(40);
    for _ in 0..1000 {
        assert_eq!(p.observe(false), Verdict::Wait { secs: 40 });
    }
    assert_eq!(p.elapsed_secs, 40_000);
    let mut p = Poller { timeout_secs: None, interval_secs: u64::MAX, elapsed_secs: 1 };
    assert_eq!(p.observe(false), Verdict::Wait { secs: u64::MAX });
    assert_eq!(p.elapsed_secs, 1);
}

#[test]
fn a_wait_that_cannot_be_counted_times_out() {
    let mut p = Poller { timeout_secs: Some(u64::MAX), interval_secs: 2, elapsed_secs: u64::MAX - 1 };
    assert_eq!(p.observe(false), Verdict::TimedOut);
}

#[test]
fn a_zero_timeout_checks_once() {
    let mut p = Poller::bounded(0, 30);
    assert_eq!(p.observe(false), Verdict::TimedOut);
    let mut p = Poller::bounded(0, 0);
    assert_eq!(p.observe(false), Verdict::Wait { secs: 0 });
}
