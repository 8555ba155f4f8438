use wusheng_pool_client::stratum::client::{ConnectAction, ConnectBackoff, ConnectEvent};

#[test]
fn gives_up_at_the_eighth_failure() {
    let mut backoff = ConnectBackoff::new();
    let mut waits = vec![];
    loop {
        match backoff.on_event(ConnectEvent::Failed) {
            ConnectAction::RetryAfter(secs) => waits.push(secs),
            ConnectAction::GiveUp => break,
            other => panic!("unexpected {:?}", other),
        }
    }
    assert_eq!(waits, vec![5, 10, 20, 40, 80, 160, 320]);
    assert_eq!(waits.iter().sum::<u64>(), 635);
    assert_eq!(backoff.on_event(ConnectEvent::Failed), ConnectAction::GiveUp);
}

#[test]
fn timeouts_double_the_backoff() {
    let mut backoff = ConnectBackoff::new();
    assert_eq!(backoff.on_event(ConnectEvent::TimedOut), ConnectAction::Retry);
    assert_eq!(backoff.backoff, 2);
    assert_eq!(backoff.on_event(ConnectEvent::Failed), ConnectAction::RetryAfter(10));
    assert_eq!(backoff.on_event(ConnectEvent::Connected), ConnectAction::Done);
    assert_eq!(backoff.backoff, 4);
}
