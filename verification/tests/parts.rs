use atomic_mpmc::errors::{ErrorCause, RecvError, SendError};
use atomic_mpmc::waiter::Waiter;
use atomic_mpmc::Node;

#[test]
fn node_starts_empty_and_hands_its_value_back() {
    let mut n: Node<u32> = Default::default();
    assert!(!n.hot());
    assert_eq!(n.data(), None);

    n.store(9);
    n.set_hot(true);
    assert!(n.hot());

    assert_eq!(n.data(), Some(9));
    n.set_hot(false);
    assert!(!n.hot());
    assert_eq!(n.data(), None);
}

#[test]
fn waiter_level_transitions() {
    let mut w = Waiter::new(true);
    // A set gate lets a waiter through at once.
    w.wait();
    w.reset();
    w.set();
    w.wait();
}

#[test]
fn error_messages() {
    assert_eq!(ErrorCause::HungUp.message(), "channel hung up");
    assert_eq!(ErrorCause::WouldBlock.message(), "channel would block");

    let se = SendError(5u32, ErrorCause::HungUp);
    assert_eq!(se.message(), "SendError: channel hung up");
    assert_eq!(se.into_inner(), 5);

    let se = SendError((), ErrorCause::WouldBlock);
    assert_eq!(se.message(), "SendError: channel would block");

    assert_eq!(
        RecvError(ErrorCause::HungUp).message(),
        "RecvError: channel hung up"
    );
    assert_eq!(
        RecvError(ErrorCause::WouldBlock).message(),
        "RecvError: channel would block"
    );
}

#[test]
fn error_causes_compare() {
    assert_eq!(ErrorCause::HungUp, ErrorCause::HungUp);
    assert_ne!(ErrorCause::HungUp, ErrorCause::WouldBlock);
    let c = ErrorCause::WouldBlock;
    let d = c;
    assert_eq!(c, d);
}
