use std::collections::VecDeque;
use wusheng_pool_client::mining::stats::ProofRateLog;

#[test]
fn cpu_miner_test_vecdeque() {
    let log = VecDeque::from(vec![0; 60]);
    assert!(log.get(0).is_some());
    let mut log = VecDeque::with_capacity(60);
    assert!(log.get(0).is_none());
    let cap = log.capacity();
    for i in 1..=cap {
        log.push_front(i);
    }
    assert_eq!(log.get(0).unwrap(), &cap);
    assert_eq!(log.get(cap - 1).unwrap(), &1);
    log.push_front(1);
    assert_eq!(log.get(cap - 1).unwrap(), &2);
}

#[test]
fn stats_test_vecdeque() {
    let log = VecDeque::from(vec![0; 60]);
    assert!(log.get(0).is_some());
    let mut log = VecDeque::with_capacity(60);
    assert!(log.get(0).is_none());
    let cap = log.capacity();
    for i in 1..=cap {
        log.push_front(i);
    }
    assert_eq!(log.get(0).unwrap(), &cap);
    assert_eq!(log.get(cap - 1).unwrap(), &1);
    log.push_front(1);
    assert_eq!(log.get(cap - 1).unwrap(), &2);
}

#[test]
fn rate_log_looks_back_one_five_fifteen_thirty_sixty() {
    let mut log = ProofRateLog::new();
    let mut last = None;
    for minute in 1..=61u32 {
        last = Some(log.record(minute * 10));
    }
    let rates = last.unwrap();
    assert_eq!(rates.total, 610);
    assert_eq!(rates.m1, 600);
    assert_eq!(rates.m5, 560);
    assert_eq!(rates.m15, 460);
    assert_eq!(rates.m30, 310);
    assert_eq!(rates.m60, 10);
}

#[test]
fn rate_log_starts_with_zeros() {
    let mut log = ProofRateLog::new();
    let rates = log.record(7);
    assert_eq!(rates.total, 7);
    assert_eq!((rates.m1, rates.m5, rates.m15, rates.m30, rates.m60), (0, 0, 0, 0, 0));
    let rates = log.record(9);
    assert_eq!(rates.m1, 7);
    assert_eq!(rates.m5, 0);
}
