use atomic_mpmc::errors::ErrorCause;
use atomic_mpmc::Channel;

#[test]
fn test_read_and_write() {
    let mut ch = Channel::<Vec<u32>>::new(3);
    ch.write(vec![1, 2, 3]).unwrap();
    ch.write(vec![4, 5, 6]).unwrap();
    ch.write(vec![7, 8, 9]).unwrap();
    assert_eq!(ch.read().unwrap(), vec![1, 2, 3]);
    assert_eq!(ch.read().unwrap(), vec![4, 5, 6]);
    assert_eq!(ch.read().unwrap(), vec![7, 8, 9]);
}

#[test]
fn test_receiver_hang_up() {
    let mut ch = Channel::<u32>::new(1);

    ch.write(1).unwrap();
    assert_eq!(ch.read().unwrap(), 1);

    ch.remove_receiver();
    assert!(ch.write(2).is_err());
}

#[test]
fn test_sender_hang_up() {
    let mut ch = Channel::<u32>::new(1);

    ch.write(1).unwrap();
    assert_eq!(ch.read().unwrap(), 1);

    ch.remove_sender();
    assert!(ch.read().is_err());
}

#[test]
fn receiver_hang_up_returns_the_unsent_value() {
    let mut ch = Channel::<u32>::new(1);

    ch.write(1).unwrap();
    assert_eq!(ch.read().unwrap(), 1);
    ch.remove_receiver();

    let e = ch.write(2).unwrap_err();
    assert_eq!(e.1, ErrorCause::HungUp);
    assert_eq!(e.into_inner(), 2);
}

#[test]
fn sender_hang_up_reports_its_cause() {
    let mut ch = Channel::<u32>::new(1);

    ch.write(1).unwrap();
    assert_eq!(ch.read().unwrap(), 1);
    ch.remove_sender();

    let e = ch.read().unwrap_err();
    assert_eq!(e.0, ErrorCause::HungUp);
}

#[test]
fn remaining_values_are_delivered_after_sender_hang_up() {
    let mut ch = Channel::<u32>::new(2);
    ch.write(10).unwrap();
    ch.write(20).unwrap();
    ch.remove_sender();

    assert_eq!(ch.read().unwrap(), 10);
    assert_eq!(ch.read().unwrap(), 20);
    assert_eq!(ch.read().unwrap_err().0, ErrorCause::HungUp);
}

#[test]
fn try_write_and_try_read_at_full_and_empty() {
    let mut ch = Channel::<u32>::new(1);

    assert!(ch.try_write(1).is_ok());

    let e = ch.try_write(2).unwrap_err();
    assert_eq!(e.1, ErrorCause::WouldBlock);
    assert_eq!(e.into_inner(), 2);

    assert_eq!(ch.try_read().unwrap(), 1);

    let e = ch.try_read().unwrap_err();
    assert_eq!(e.0, ErrorCause::WouldBlock);
}

#[test]
fn fifo_order_across_wrap() {
    let mut ch = Channel::<u32>::new(3);
    let mut next_send: u32 = 0;
    let mut expected: u32 = 0;
    while expected < 10 {
        while next_send < 10 && ch.try_write(next_send).is_ok() {
            next_send += 1;
        }
        assert_eq!(ch.try_read().unwrap(), expected);
        expected += 1;
    }
    assert_eq!(ch.try_read().unwrap_err().0, ErrorCause::WouldBlock);
}

#[test]
fn conservation_of_values() {
    let mut ch = Channel::<u32>::new(4);
    let sent = vec![3, 1, 2, 1];
    for v in &sent {
        ch.write(*v).unwrap();
    }
    let mut received = Vec::new();
    for _ in 0..sent.len() {
        received.push(ch.read().unwrap());
    }
    let mut sent_sorted = sent.clone();
    sent_sorted.sort();
    let mut received_sorted = received.clone();
    received_sorted.sort();
    assert_eq!(sent_sorted, received_sorted);
    assert_eq!(sent, received);
}

#[test]
fn handle_counters_follow_clone_and_drop() {
    let mut ch = Channel::<u32>::new(2);
    assert_eq!(ch.sender_count(), 1);
    assert_eq!(ch.receiver_count(), 1);

    ch.add_sender();
    ch.add_sender();
    ch.add_receiver();
    assert_eq!(ch.sender_count(), 3);
    assert_eq!(ch.receiver_count(), 2);

    ch.remove_sender();
    ch.remove_sender();
    ch.remove_receiver();
    assert_eq!(ch.sender_count(), 1);
    assert_eq!(ch.receiver_count(), 1);

    // A live sender keeps an empty queue non-blocking but not hung up.
    assert_eq!(ch.try_read().unwrap_err().0, ErrorCause::WouldBlock);
}
