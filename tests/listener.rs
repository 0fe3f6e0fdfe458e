use rsa_channel::listener::{Listener, ListenerAction, ListenerEvent, ListenerState, BIND_BACKOFF_SECS};

#[test]
fn bind_failure_backs_off_and_retries() {
    let mut l = Listener::new(7000);
    assert_eq!(l.state, ListenerState::Idle);
    assert_eq!(l.handle(ListenerEvent::Start), ListenerAction::Bind { port: 7000 });
    assert_eq!(l.handle(ListenerEvent::BindFailed), ListenerAction::Sleep { secs: 5 });
    assert_eq!(l.state, ListenerState::BindFailed);
    assert_eq!(l.handle(ListenerEvent::BackoffElapsed), ListenerAction::Bind { port: 7000 });
    assert_eq!(l.state, ListenerState::Binding);
    assert_eq!(l.handle(ListenerEvent::BindFailed), ListenerAction::Sleep { secs: BIND_BACKOFF_SECS });
    assert_eq!(l.handle(ListenerEvent::BackoffElapsed), ListenerAction::Bind { port: 7000 });
    assert_eq!(l.handle(ListenerEvent::BindSucceeded), ListenerAction::Accept);
    assert_eq!(l.state, ListenerState::Bound);
}

#[test]
fn accept_loop_never_ends() {
    let mut l = Listener::new(443);
    l.handle(ListenerEvent::Start);
    l.handle(ListenerEvent::BindSucceeded);
    assert_eq!(l.handle(ListenerEvent::Accepted), ListenerAction::DispatchAndAccept);
    assert_eq!(l.handle(ListenerEvent::AcceptFailed), ListenerAction::Accept);
    assert_eq!(l.handle(ListenerEvent::Accepted), ListenerAction::DispatchAndAccept);
    assert_eq!(l.state, ListenerState::Bound);
    assert_eq!(l.port, 443);
}

#[test]
fn out_of_place_events_repeat_the_wait() {
    let mut l = Listener::new(1);
    l.handle(ListenerEvent::Start);
    assert_eq!(l.handle(ListenerEvent::Accepted), ListenerAction::Bind { port: 1 });
    l.handle(ListenerEvent::BindFailed);
    assert_eq!(l.handle(ListenerEvent::BindSucceeded), ListenerAction::Sleep { secs: 5 });
    assert_eq!(l.state, ListenerState::BindFailed);
}
