use hello::acceptor::{AcceptOutcome, Acceptor, Reaction, POLL_INTERVAL_MS};

#[test]
fn acceptor_reacts_to_each_outcome() {
    let a = Acceptor::new();
    assert_eq!(a.react(AcceptOutcome::Accepted), Reaction::Dispatch);
    assert_eq!(a.react(AcceptOutcome::WouldBlock), Reaction::Sleep(100));
    assert_eq!(a.react(AcceptOutcome::Failed), Reaction::Report);
    assert_eq!(POLL_INTERVAL_MS, 100);
}

#[test]
fn shutdown_flag_stops_the_loop_for_good() {
    let mut a = Acceptor::new();
    assert!(a.poll(false));
    assert!(a.poll(false));
    assert!(!a.poll(true));
    assert!(!a.poll(false));
}
